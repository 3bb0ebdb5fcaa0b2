//! The orientation codec: a packed one-byte code, its four unpacked fields,
//! and the 3x3 signed-permutation matrix each valid combination denotes.

use vstd::prelude::*;

verus! {

/// One cube symmetry, unpacked into its four fields.
///
/// * `rot`: quarter turns about the normal axis, `0..=3`.
/// * `sign`: `0` when the normal points along the positive standard axis,
///   `1` for the negative one, so the all-zero orientation is the identity.
/// * `flip`: `0` for a proper placement, `1` for the mirrored one.
/// * `axis`: which standard axis (x, y or z) is the normal, `0..=2`.
#[derive(Debug, Clone, Copy, PartialEq, Eq, Structural)]
pub struct Orient {
    pub rot: u8,
    pub sign: u8,
    pub flip: u8,
    pub axis: u8,
}

/// Rejections raised by the codec.
#[derive(Debug, Clone, Copy, PartialEq, Eq, Structural)]
pub enum OrientError {
    /// An `Orient` field lies outside its declared range.
    InvalidField,
    /// A code whose axis bits hold the reserved value.
    InvalidCode,
}

/// All four fields lie in their declared ranges.
pub open spec fn valid_orient(o: Orient) -> bool {
    o.rot < 4 && o.sign < 2 && o.flip < 2 && o.axis < 3
}

/// The packed form of an orientation: `rot` in bits 0-1, `sign` in bit 2,
/// `flip` in bit 3 and `axis` in bits 4-5, stated as a weighted sum.
pub open spec fn code_of(o: Orient) -> u8 {
    (o.rot + o.sign * 4 + o.flip * 8 + o.axis * 16) as u8
}

/// The unpacked form of a code: each field read back out of its bit range.
pub open spec fn orient_of(c: u8) -> Orient {
    Orient {
        rot: (c % 4) as u8,
        sign: ((c / 4) % 2) as u8,
        flip: ((c / 8) % 2) as u8,
        axis: (c / 16) as u8,
    }
}

/// A code is decodable exactly when its axis bits stay below the reserved
/// value, that is when the code is below 48.
pub open spec fn valid_code(c: u8) -> bool {
    c < 48
}

impl Orient {
    /// Packs the four fields into one byte, rejecting out-of-range fields.
    pub fn encode(&self) -> (r: Result<u8, OrientError>)
        ensures
            valid_orient(*self) ==> r == Ok::<u8, OrientError>(code_of(*self)),
            !valid_orient(*self) ==> r == Err::<u8, OrientError>(OrientError::InvalidField),
    {
        if self.rot < 4 && self.sign < 2 && self.flip < 2 && self.axis < 3 {
            Ok(self.rot + self.sign * 4 + self.flip * 8 + self.axis * 16)
        } else {
            Err(OrientError::InvalidField)
        }
    }

    /// Unpacks a byte into the four fields, rejecting codes whose axis bits
    /// reach the reserved fourth value.
    pub fn decode(code: u8) -> (r: Result<Orient, OrientError>)
        ensures
            valid_code(code) ==> r == Ok::<Orient, OrientError>(orient_of(code)),
            !valid_code(code) ==> r == Err::<Orient, OrientError>(OrientError::InvalidCode),
    {
        if code < 48 {
            Ok(Orient {
                rot: code % 4,
                sign: (code / 4) % 2,
                flip: (code / 8) % 2,
                axis: code / 16,
            })
        } else {
            Err(OrientError::InvalidCode)
        }
    }
}

/// The signed unit that a one-bit field selects: `0` maps to `+1`, `1` to `-1`.
pub open spec fn sign_val(bit: u8) -> int {
    1 - 2 * (bit as int)
}

/// The sign that quarter turn `i` assigns, following the cycle
/// `+1, +1, -1, -1` (so the table `[+1, +1, -1, -1, +1]` at indices `0..=4`).
pub open spec fn rot_sign(i: int) -> int {
    if i % 4 == 0 || i % 4 == 1 {
        1
    } else {
        -1
    }
}

/// Where canonical basis vector `c` lands: column 0 goes to the normal axis,
/// columns 1 and 2 to its two cyclic neighbours, the direction of the cycle
/// chosen by the sign bit so that the all-zero orientation is the identity.
pub open spec fn col_axis(o: Orient, c: int) -> int {
    if c == 0 {
        o.axis as int
    } else if c == 1 {
        (o.axis + sign_val(o.sign)) % 3
    } else {
        (o.axis - sign_val(o.sign)) % 3
    }
}

/// The sign carried by canonical basis vector `c`: the normal keeps the sign
/// bit's unit, the other two take consecutive entries of the quarter-turn
/// cycle, with the flip bit mirroring the last one.
pub open spec fn col_sign(o: Orient, c: int) -> int {
    if c == 0 {
        sign_val(o.sign)
    } else if c == 1 {
        rot_sign(o.rot as int)
    } else {
        rot_sign(o.rot as int + 1) * sign_val(o.flip)
    }
}

/// Entry `(r, c)` of the orientation's matrix: column `c` holds its sole
/// nonzero entry, `col_sign(o, c)`, at row `col_axis(o, c)`.
pub open spec fn mat_entry(o: Orient, r: int, c: int) -> int {
    if r == col_axis(o, c) {
        col_sign(o, c)
    } else {
        0
    }
}

/// Adds an offset to an axis index and normalizes the result into `[0, n)`,
/// so that stepping below zero wraps to the top instead of going negative.
fn axis_add(axis: i32, d: i32, n: i32) -> (r: i32)
    requires
        n > 0,
        -n < axis + d,
        axis + d <= i32::MAX,
    ensures
        r == (axis + d) % (n as int),
        0 <= r < n,
{
    let res = axis + d;
    if res < 0 {
        let abs = -res;
        proof {
            vstd::arithmetic::div_mod::lemma_small_mod(abs as nat, n as nat);
            vstd::arithmetic::div_mod::lemma_fundamental_div_mod_converse_mod(
                res as int,
                n as int,
                -1,
                res + n,
            );
        }
        n - (abs % n)
    } else {
        proof {
            vstd::arithmetic::div_mod::lemma_mod_division_less_than_divisor(res as int, n as int);
        }
        res % n
    }
}

/// The quarter-turn sign cycle, executable form of `rot_sign`.
fn rot_sign_at(i: u8) -> (r: i32)
    ensures
        r == rot_sign(i as int),
{
    if i % 4 <= 1 {
        1
    } else {
        -1
    }
}

impl Orient {
    /// Assembles the 3x3 signed-permutation matrix of this orientation, in
    /// row-major order, rejecting out-of-range fields. Every entry is `-1`,
    /// `0` or `+1`; widening to floats is the consumer's concern.
    pub fn to_matrix(&self) -> (res: Result<[[i32; 3]; 3], OrientError>)
        ensures
            valid_orient(*self) ==> (res matches Ok(m) && forall|r: int, c: int|
                0 <= r < 3 && 0 <= c < 3 ==> #[trigger] m[r][c] == mat_entry(*self, r, c)),
            !valid_orient(*self) ==> res == Err::<[[i32; 3]; 3], OrientError>(
                OrientError::InvalidField,
            ),
    {
        if !(self.rot < 4 && self.sign < 2 && self.flip < 2 && self.axis < 3) {
            return Err(OrientError::InvalidField);
        }
        let a0: i32 = self.axis as i32;
        let s0: i32 = 1 - 2 * (self.sign as i32);
        let a1: i32 = axis_add(a0, s0, 3);
        let a2: i32 = axis_add(a0, -s0, 3);
        let s1: i32 = rot_sign_at(self.rot);
        let s2: i32 = rot_sign_at(self.rot + 1) * (1 - 2 * (self.flip as i32));
        let m: [[i32; 3]; 3] = [
            [
                if a0 == 0 { s0 } else { 0 },
                if a1 == 0 { s1 } else { 0 },
                if a2 == 0 { s2 } else { 0 },
            ],
            [
                if a0 == 1 { s0 } else { 0 },
                if a1 == 1 { s1 } else { 0 },
                if a2 == 1 { s2 } else { 0 },
            ],
            [
                if a0 == 2 { s0 } else { 0 },
                if a1 == 2 { s1 } else { 0 },
                if a2 == 2 { s2 } else { 0 },
            ],
        ];
        Ok(m)
    }
}

} // verus!
