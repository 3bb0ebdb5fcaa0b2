//! The algebraic laws of the codec: the code/orientation round trips, and
//! the identity, monomial shape, orthogonality and distinctness of the
//! matrices it produces.

use vstd::prelude::*;

use crate::orient::{
    code_of, col_axis, col_sign, mat_entry, orient_of, rot_sign, sign_val, valid_code,
    valid_orient, Orient,
};

verus! {

/// Products of factors drawn from `{-1, 0, 1}`, fully characterized.
proof fn lemma_unit_mul(x: int, y: int)
    by (nonlinear_arith)
    requires
        -1 <= x <= 1,
        -1 <= y <= 1,
    ensures
        x * y == (if x == 0 || y == 0 {
            0int
        } else if x == y {
            1int
        } else {
            -1int
        }),
{
}

/// Decoding recovers every validly encoded orientation: for all `o` with
/// `rot < 4`, `sign < 2`, `flip < 2` and `axis < 3`,
/// `decode(encode(o)) == o`.
pub proof fn lemma_orient_round_trip(o: Orient)
    requires
        valid_orient(o),
    ensures
        orient_of(code_of(o)) == o,
{
    let r = o.rot as int;
    let s = o.sign as int;
    let f = o.flip as int;
    let a = o.axis as int;
    let c = r + s * 4 + f * 8 + a * 16;
    assert(code_of(o) == c);
    vstd::arithmetic::div_mod::lemma_fundamental_div_mod_converse_mod(c, 4, s + f * 2 + a * 4, r);
    vstd::arithmetic::div_mod::lemma_fundamental_div_mod_converse_div(c, 4, s + f * 2 + a * 4, r);
    vstd::arithmetic::div_mod::lemma_fundamental_div_mod_converse_mod(s + f * 2 + a * 4, 2, f + a * 2, s);
    vstd::arithmetic::div_mod::lemma_fundamental_div_mod_converse_div(c, 8, f + a * 2, r + s * 4);
    vstd::arithmetic::div_mod::lemma_fundamental_div_mod_converse_mod(f + a * 2, 2, a, f);
    vstd::arithmetic::div_mod::lemma_fundamental_div_mod_converse_div(c, 16, a, r + s * 4 + f * 8);
}

/// Encoding recovers every decodable code: for all `c` below 48 (all codes
/// whose axis bits stay off the reserved value), `encode(decode(c)) == c`.
pub proof fn lemma_code_round_trip(c: u8)
    requires
        valid_code(c),
    ensures
        code_of(orient_of(c)) == c,
{
    let x = c as int;
    vstd::arithmetic::div_mod::lemma_fundamental_div_mod(x, 4);
    vstd::arithmetic::div_mod::lemma_mod_division_less_than_divisor(x, 4);
    vstd::arithmetic::div_mod::lemma_fundamental_div_mod(x / 4, 2);
    vstd::arithmetic::div_mod::lemma_mod_division_less_than_divisor(x / 4, 2);
    vstd::arithmetic::div_mod::lemma_div_denominator(x, 4, 2);
    vstd::arithmetic::div_mod::lemma_fundamental_div_mod(x / 8, 2);
    vstd::arithmetic::div_mod::lemma_mod_division_less_than_divisor(x / 8, 2);
    vstd::arithmetic::div_mod::lemma_div_denominator(x, 8, 2);
}

/// Every decodable code unpacks to an orientation whose fields are all in
/// range.
pub proof fn lemma_decoded_valid(c: u8)
    requires
        valid_code(c),
    ensures
        valid_orient(orient_of(c)),
{
    let x = c as int;
    vstd::arithmetic::div_mod::lemma_mod_division_less_than_divisor(x, 4);
    vstd::arithmetic::div_mod::lemma_mod_division_less_than_divisor(x / 4, 2);
    vstd::arithmetic::div_mod::lemma_mod_division_less_than_divisor(x / 8, 2);
    vstd::arithmetic::div_mod::lemma_fundamental_div_mod(x, 16);
    vstd::arithmetic::div_mod::lemma_mod_division_less_than_divisor(x, 16);
}

/// The all-zero orientation.
pub open spec fn identity_orient() -> Orient {
    Orient { rot: 0, sign: 0, flip: 0, axis: 0 }
}

/// The all-zero orientation builds the identity matrix.
pub proof fn lemma_identity_matrix()
    ensures
        forall|r: int, c: int|
            0 <= r < 3 && 0 <= c < 3 ==> #[trigger] mat_entry(identity_orient(), r, c) == (
            if r == c {
                1int
            } else {
                0int
            }),
{
    lemma_unit_mul(rot_sign(1), sign_val(0));
}

/// Every matrix the algebra produces is monomial: each column holds a single
/// `+1` or `-1` at its destination row, and the three destination rows are
/// pairwise distinct, so each row too holds a single nonzero entry.
pub proof fn lemma_monomial(o: Orient)
    requires
        valid_orient(o),
    ensures
        forall|c: int| 0 <= c < 3 ==> 0 <= #[trigger] col_axis(o, c) < 3,
        forall|c: int|
            0 <= c < 3 ==> (#[trigger] col_sign(o, c) == 1 || col_sign(o, c) == -1),
        forall|r: int, c: int|
            0 <= r < 3 && 0 <= c < 3 ==> (#[trigger] mat_entry(o, r, c) != 0 <==> r == col_axis(
                o,
                c,
            )),
        col_axis(o, 0) != col_axis(o, 1),
        col_axis(o, 0) != col_axis(o, 2),
        col_axis(o, 1) != col_axis(o, 2),
{
    lemma_unit_mul(rot_sign(o.rot as int + 1), sign_val(o.flip));
}

/// Entry `(i, j)` of the product of the orientation's matrix with its own
/// transpose: the dot product of rows `i` and `j`.
pub open spec fn gram_entry(o: Orient, i: int, j: int) -> int {
    mat_entry(o, i, 0) * mat_entry(o, j, 0) + mat_entry(o, i, 1) * mat_entry(o, j, 1) + mat_entry(
        o,
        i,
        2,
    ) * mat_entry(o, j, 2)
}

/// Every matrix the algebra produces is orthogonal: the product with its own
/// transpose is exactly the identity (entries are integers, so no tolerance
/// is involved).
pub proof fn lemma_orthogonal(o: Orient)
    requires
        valid_orient(o),
    ensures
        forall|i: int, j: int|
            0 <= i < 3 && 0 <= j < 3 ==> #[trigger] gram_entry(o, i, j) == (if i == j {
                1int
            } else {
                0int
            }),
{
    lemma_monomial(o);
    assert forall|i: int, j: int|
        0 <= i < 3 && 0 <= j < 3 implies #[trigger] gram_entry(o, i, j) == (if i == j {
        1int
    } else {
        0int
    }) by {
        lemma_unit_mul(mat_entry(o, i, 0), mat_entry(o, j, 0));
        lemma_unit_mul(mat_entry(o, i, 1), mat_entry(o, j, 1));
        lemma_unit_mul(mat_entry(o, i, 2), mat_entry(o, j, 2));
    }
}

/// Two orientations denote the same matrix when all nine entries agree.
pub open spec fn same_matrix(o1: Orient, o2: Orient) -> bool {
    forall|r: int, c: int|
        0 <= r < 3 && 0 <= c < 3 ==> #[trigger] mat_entry(o1, r, c) == #[trigger] mat_entry(
            o2,
            r,
            c,
        )
}

/// With the flip field held fixed the matrix determines the orientation: the
/// 24 matrices reached by varying `(axis, sign, rot)` at `flip == 0` are
/// pairwise distinct, and so are the 24 reached at `flip == 1`.
pub proof fn lemma_matrix_injective_same_flip(o1: Orient, o2: Orient)
    requires
        valid_orient(o1),
        valid_orient(o2),
        o1.flip == o2.flip,
        same_matrix(o1, o2),
    ensures
        o1 == o2,
{
    lemma_monomial(o1);
    lemma_monomial(o2);
    let a = o1.axis as int;
    assert(mat_entry(o1, a, 0) == mat_entry(o2, a, 0));
    assert(o1.axis == o2.axis && o1.sign == o2.sign);
    let a1 = col_axis(o1, 1);
    assert(mat_entry(o1, a1, 1) == mat_entry(o2, a1, 1));
    assert(rot_sign(o1.rot as int) == rot_sign(o2.rot as int));
    let a2 = col_axis(o1, 2);
    assert(mat_entry(o1, a2, 2) == mat_entry(o2, a2, 2));
    lemma_unit_mul(rot_sign(o1.rot as int + 1), sign_val(o1.flip));
    lemma_unit_mul(rot_sign(o2.rot as int + 1), sign_val(o2.flip));
    assert(rot_sign(o1.rot as int + 1) == rot_sign(o2.rot as int + 1));
    assert(o1.rot == o2.rot);
}

} // verus!
