//! Random vectors, drawn from the thread-local generator of `rand`.
//!
//! A random word stands for the number in [0, 1) whose fixed-point form is
//! the word's 24 most significant bits: the number that `rand` makes of one
//! word when it is asked for a single-precision value.
use vstd::prelude::*;
use crate::fixed::{HALF, ONE};
use crate::vector::{SpecVec3, Vec3};

verus! {

/// Calls `rand::Rng::gen::<u32>` on `rand::thread_rng()`: one word of the
/// thread-local generator. Nothing is claimed of the word. The call fails
/// only where the system cannot seed the generator.
#[verifier::external_body]
fn draw_word() -> (word: u32) {
    rand::Rng::gen::<u32>(&mut rand::thread_rng())
}

/// The fixed-point number in [0, 1) that `word` stands for.
pub open spec fn unit_of(word: u32) -> int {
    word as int / 256
}

/// The sign that `word` selects: positive where the number it stands for
/// exceeds one half, negative otherwise.
pub open spec fn sign_of(word: u32) -> int {
    if unit_of(word) > HALF {
        1
    } else {
        -1
    }
}

/// The vector whose components are the numbers that `x`, `y` and `z` stand
/// for.
pub open spec fn unsigned_sample(x: u32, y: u32, z: u32) -> SpecVec3 {
    SpecVec3 { x: unit_of(x), y: unit_of(y), z: unit_of(z) }
}

/// The vector of `unsigned_sample(x, y, z)` with each component given the
/// sign that `sx`, `sy` and `sz` select for it.
pub open spec fn signed_sample(x: u32, y: u32, z: u32, sx: u32, sy: u32, sz: u32) -> SpecVec3 {
    SpecVec3 {
        x: unit_of(x) * sign_of(sx),
        y: unit_of(y) * sign_of(sy),
        z: unit_of(z) * sign_of(sz),
    }
}

/// What holds of every vector that can be sampled: each component lies
/// strictly between -1 and 1, and is not negative unless signs were asked for.
pub open spec fn is_sample(v: SpecVec3, is_signed: bool) -> bool {
    &&& v.within(ONE as int)
    &&& !is_signed ==> v.x >= 0 && v.y >= 0 && v.z >= 0
}

/// The fixed-point number in [0, 1) that `word` stands for.
pub fn unit_from_word(word: u32) -> (unit: i64)
    ensures
        unit == unit_of(word),
        0 <= unit < ONE,
{
    let top: u32 = word >> 8;
    assert(top == word / 256 && top < 0x100_0000) by (bit_vector)
        requires
            top == word >> 8,
    ;
    top as i64
}

/// The sign that `word` selects, as 1 or -1.
pub fn sign_from_word(word: u32) -> (sign: i64)
    ensures
        sign == sign_of(word),
{
    if unit_from_word(word) > HALF {
        1
    } else {
        -1
    }
}

/// The unsigned vector that three random words stand for.
pub fn unsigned_vec3(x: u32, y: u32, z: u32) -> (v: Vec3)
    ensures
        v@ == unsigned_sample(x, y, z),
        is_sample(v@, false),
{
    Vec3 { x: unit_from_word(x), y: unit_from_word(y), z: unit_from_word(z) }
}

/// The signed vector that six random words stand for: three for the
/// magnitudes, then three for the signs.
pub fn signed_vec3(x: u32, y: u32, z: u32, sx: u32, sy: u32, sz: u32) -> (v: Vec3)
    ensures
        v@ == signed_sample(x, y, z, sx, sy, sz),
        is_sample(v@, true),
{
    Vec3 {
        x: unit_from_word(x) * sign_from_word(sx),
        y: unit_from_word(y) * sign_from_word(sy),
        z: unit_from_word(z) * sign_from_word(sz),
    }
}

/// Draws a random vector: three words for the components and, if `is_signed`,
/// three more for their signs.
///
/// Which vector comes back is left to chance; whatever was drawn, its
/// components lie in [0, 1), or in (-1, 1) if `is_signed`.
pub fn get_rng_vec3(is_signed: bool) -> (v: Vec3)
    ensures
        is_sample(v@, is_signed),
{
    let rng_x: u32 = draw_word();
    let rng_y: u32 = draw_word();
    let rng_z: u32 = draw_word();
    if !is_signed {
        return unsigned_vec3(rng_x, rng_y, rng_z);
    }
    let signed_x: u32 = draw_word();
    let signed_y: u32 = draw_word();
    let signed_z: u32 = draw_word();
    signed_vec3(rng_x, rng_y, rng_z, signed_x, signed_y, signed_z)
}

} // verus!
