//! Differences of the integer fields of a proxy, as the `diff` crate computes them:
//! the difference of two values is the second minus the first with wrap-around,
//! applying a difference adds it with wrap-around, and the neutral difference is 0.
use vstd::prelude::*;

verus! {

/// `x` reduced into the range of `u32`.
pub open spec fn wrap_u32(x: int) -> u32 {
    (x % 0x1_0000_0000) as u32
}

/// `x` reduced into the range of `u8`.
pub open spec fn wrap_u8(x: int) -> u8 {
    (x % 0x100) as u8
}

/// `x` reduced into the range of `i8`.
pub open spec fn wrap_i8(x: int) -> i8 {
    ((x + 0x80) % 0x100 - 0x80) as i8
}

/// Relies on `diff::Diff::diff` for `u32`: `to.wrapping_sub(from)`.
#[verifier::external_body]
pub(crate) fn diff_u32(from: u32, to: u32) -> (r: u32)
    ensures
        r == wrap_u32(to - from),
{
    diff::Diff::diff(&from, &to)
}

/// Relies on `diff::Diff::apply` for `u32`: `wrapping_add` of the difference.
#[verifier::external_body]
pub(crate) fn apply_u32(target: &mut u32, d: u32)
    ensures
        *final(target) == wrap_u32(*old(target) + d),
{
    diff::Diff::apply(target, &d)
}

/// Relies on `diff::Diff::diff` for `u8`: `to.wrapping_sub(from)`.
#[verifier::external_body]
pub(crate) fn diff_u8(from: u8, to: u8) -> (r: u8)
    ensures
        r == wrap_u8(to - from),
{
    diff::Diff::diff(&from, &to)
}

/// Relies on `diff::Diff::apply` for `u8`: `wrapping_add` of the difference.
#[verifier::external_body]
pub(crate) fn apply_u8(target: &mut u8, d: u8)
    ensures
        *final(target) == wrap_u8(*old(target) + d),
{
    diff::Diff::apply(target, &d)
}

/// Relies on `diff::Diff::diff` for `i8`: `to.wrapping_sub(from)`.
#[verifier::external_body]
pub(crate) fn diff_i8(from: i8, to: i8) -> (r: i8)
    ensures
        r == wrap_i8(to - from),
{
    diff::Diff::diff(&from, &to)
}

/// Relies on `diff::Diff::apply` for `i8`: `wrapping_add` of the difference.
#[verifier::external_body]
pub(crate) fn apply_i8(target: &mut i8, d: i8)
    ensures
        *final(target) == wrap_i8(*old(target) + d),
{
    diff::Diff::apply(target, &d)
}

/// Applying the difference of two `u32` values to the first gives the second.
pub proof fn lemma_u32_round_trip(from: u32, to: u32)
    ensures
        wrap_u32(from + wrap_u32(to - from)) == to,
        wrap_u32(to - to) == 0,
        wrap_u32(from + 0) == from,
{
}

/// Applying the difference of two `u8` values to the first gives the second.
pub proof fn lemma_u8_round_trip(from: u8, to: u8)
    ensures
        wrap_u8(from + wrap_u8(to - from)) == to,
        wrap_u8(to - to) == 0,
        wrap_u8(from + 0) == from,
{
}

/// Applying the difference of two `i8` values to the first gives the second.
pub proof fn lemma_i8_round_trip(from: i8, to: i8)
    ensures
        wrap_i8(from + wrap_i8(to - from)) == to,
        wrap_i8(to - to) == 0,
        wrap_i8(from + 0) == from,
{
}

} // verus!
