//! The lookup table: every code decoded once, its matrix extended to
//! homogeneous 4x4 form, collected in code order for a rendering backend to
//! index directly.

use vstd::prelude::*;

use crate::laws::lemma_decoded_valid;
use crate::orient::{mat_entry, orient_of, Orient};

verus! {

/// Entry `(r, c)` of the homogeneous extension of an orientation's matrix:
/// the 3x3 block in the upper left, a trivial translation row and column
/// around it.
pub open spec fn hom_entry(o: Orient, r: int, c: int) -> int {
    if r < 3 && c < 3 {
        mat_entry(o, r, c)
    } else if r == 3 && c == 3 {
        1
    } else {
        0
    }
}

/// The 4x4 matrix `h` is the homogeneous extension of orientation `o`'s
/// matrix.
pub open spec fn hom_matches(h: [[i32; 4]; 4], o: Orient) -> bool {
    forall|r: int, c: int| 0 <= r < 4 && 0 <= c < 4 ==> #[trigger] h[r][c] == hom_entry(o, r, c)
}

/// Extends a 3x3 matrix to homogeneous 4x4 form by appending an identity
/// translation row and column.
pub fn to_homogeneous(m: &[[i32; 3]; 3]) -> (h: [[i32; 4]; 4])
    ensures
        forall|r: int, c: int|
            0 <= r < 4 && 0 <= c < 4 ==> #[trigger] h[r][c] == (if r < 3 && c < 3 {
                m[r][c] as int
            } else if r == 3 && c == 3 {
                1int
            } else {
                0int
            }),
{
    [
        [m[0][0], m[0][1], m[0][2], 0],
        [m[1][0], m[1][1], m[1][2], 0],
        [m[2][0], m[2][1], m[2][2], 0],
        [0, 0, 0, 1],
    ]
}

/// Decodes every code below `count` in order and collects the homogeneous
/// form of each orientation's matrix. All codes below 48 decode, so no entry
/// can be rejected.
pub fn build_table(count: u32) -> (t: Vec<[[i32; 4]; 4]>)
    requires
        count <= 48,
    ensures
        t@.len() == count,
        forall|i: int| 0 <= i < count ==> hom_matches(#[trigger] t@[i], orient_of(i as u8)),
{
    let mut table: Vec<[[i32; 4]; 4]> = Vec::new();
    for code in 0..count
        invariant
            count <= 48,
            table@.len() == code,
            forall|i: int| 0 <= i < code ==> hom_matches(#[trigger] table@[i], orient_of(i as u8)),
    {
        proof {
            lemma_decoded_valid(code as u8);
        }
        let o = Orient::decode(code as u8).unwrap();
        let m = o.to_matrix().unwrap();
        let h = to_homogeneous(&m);
        table.push(h);
    }
    table
}

/// The rotations-only table: one entry for each of the first 24 codes.
pub fn build_rotation_table() -> (t: Vec<[[i32; 4]; 4]>)
    ensures
        t@.len() == 24,
        forall|i: int| 0 <= i < 24 ==> hom_matches(#[trigger] t@[i], orient_of(i as u8)),
{
    build_table(24)
}

/// The full table: one entry for each of the 48 decodable codes, the
/// mirrored placements included.
pub fn build_symmetry_table() -> (t: Vec<[[i32; 4]; 4]>)
    ensures
        t@.len() == 48,
        forall|i: int| 0 <= i < 48 ==> hom_matches(#[trigger] t@[i], orient_of(i as u8)),
{
    build_table(48)
}

} // verus!
