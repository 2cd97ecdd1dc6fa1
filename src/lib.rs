//! Rotation of three values, held either in three separate places or at three
//! positions of one slice, by exchanges alone: the element type needs neither
//! `Clone`, `Copy` nor `Default`.
//!
//! A left rotation turns `(a, b, c)` into `(b, c, a)`; a right rotation turns it
//! into `(c, a, b)`.
use vstd::prelude::*;

pub mod slice;

verus! {

use crate::slice::{distinct3, in_bounds3, seq_rotl, seq_rotr};

/// The triple after a left rotation: each place takes its right neighbour's value.
pub open spec fn rotl<T>(t: (T, T, T)) -> (T, T, T) {
    (t.1, t.2, t.0)
}

/// The triple after a right rotation: each place takes its left neighbour's value.
pub open spec fn rotr<T>(t: (T, T, T)) -> (T, T, T) {
    (t.2, t.0, t.1)
}

/// Rotates three values to the left: `a` takes the value of `b`, `b` that of `c`,
/// and `c` that of `a`.
pub fn swap3_bca<T>(a: &mut T, b: &mut T, c: &mut T)
    ensures
        (*final(a), *final(b), *final(c)) == rotl((*old(a), *old(b), *old(c))),
{
    std::mem::swap(a, b);
    std::mem::swap(b, c);
}

/// Rotates three values to the right: `a` takes the value of `c`, `b` that of `a`,
/// and `c` that of `b`.
pub fn swap3_cab<T>(a: &mut T, b: &mut T, c: &mut T)
    ensures
        (*final(a), *final(b), *final(c)) == rotr((*old(a), *old(b), *old(c))),
{
    std::mem::swap(a, c);
    std::mem::swap(b, c);
}

/// Rotates the elements at three distinct indices of `data` to the left:
/// `data[a]` takes the value of `data[b]`, `data[b]` that of `data[c]`, and
/// `data[c]` that of `data[a]`. The work is done by [`slice::bca_safe`].
pub fn swap3_bca_slice<T>(data: &mut [T], a: usize, b: usize, c: usize)
    requires
        in_bounds3(old(data)@.len() as int, a as int, b as int, c as int),
    ensures
        final(data)@ == seq_rotl(old(data)@, a as int, b as int, c as int),
        distinct3(a as int, b as int, c as int) ==> final(data)@ == old(data)@.update(
            a as int,
            old(data)@[b as int],
        ).update(b as int, old(data)@[c as int]).update(c as int, old(data)@[a as int]),
{
    slice::bca_safe(data, a, b, c);
}

/// Rotates the elements at three distinct indices of `data` to the right:
/// `data[a]` takes the value of `data[c]`, `data[b]` that of `data[a]`, and
/// `data[c]` that of `data[b]`. The work is done by [`slice::cab_safe`].
pub fn swap3_cab_slice<T>(data: &mut [T], a: usize, b: usize, c: usize)
    requires
        in_bounds3(old(data)@.len() as int, a as int, b as int, c as int),
    ensures
        final(data)@ == seq_rotr(old(data)@, a as int, b as int, c as int),
        distinct3(a as int, b as int, c as int) ==> final(data)@ == old(data)@.update(
            a as int,
            old(data)@[c as int],
        ).update(b as int, old(data)@[a as int]).update(c as int, old(data)@[b as int]),
{
    slice::cab_safe(data, a, b, c);
}

/// A left rotation followed by a right rotation of the same three places, or the
/// two in the other order, gives back the values that the places held at first.
pub proof fn lemma_rotations_are_inverse<T>(x: T, y: T, z: T)
    ensures
        rotr(rotl((x, y, z))) == (x, y, z),
        rotl(rotr((x, y, z))) == (x, y, z),
{
}

} // verus!
