//! Rotation of three positions of one slice, built from the bounds-checked
//! exchange of two elements.
use vstd::prelude::*;

verus! {

/// The sequence `s` with its elements at `i` and `j` exchanged; where `i == j` it
/// is `s` itself.
pub open spec fn swapped<T>(s: Seq<T>, i: int, j: int) -> Seq<T> {
    s.update(i, s[j]).update(j, s[i])
}

/// The three indices are pairwise distinct.
pub open spec fn distinct3(a: int, b: int, c: int) -> bool {
    a != b && b != c && a != c
}

/// The three indices all lie within a sequence of length `len`.
pub open spec fn in_bounds3(len: int, a: int, b: int, c: int) -> bool {
    0 <= a < len && 0 <= b < len && 0 <= c < len
}

/// What a left rotation at `a`, `b`, `c` leaves: the exchange at `a`, `b`, then the
/// exchange at `b`, `c`. This is exact also where indices repeat.
pub open spec fn seq_rotl<T>(s: Seq<T>, a: int, b: int, c: int) -> Seq<T> {
    swapped(swapped(s, a, b), b, c)
}

/// What a right rotation at `a`, `b`, `c` leaves: the exchange at `a`, `c`, then the
/// exchange at `b`, `c`. This is exact also where indices repeat.
pub open spec fn seq_rotr<T>(s: Seq<T>, a: int, b: int, c: int) -> Seq<T> {
    swapped(swapped(s, a, c), b, c)
}

/// Relies on `<[T]>::swap`: it exchanges the elements at `i` and `j`, changes
/// nothing when `i == j`, and panics when either index is out of bounds.
#[verifier::external_body]
fn exchange<T>(data: &mut [T], i: usize, j: usize)
    requires
        i < old(data)@.len(),
        j < old(data)@.len(),
    ensures
        final(data)@ == swapped(old(data)@, i as int, j as int),
{
    data.swap(i, j);
}

/// Rotates the elements at three distinct indices to the left: `data[a]` takes the
/// value of `data[b]`, `data[b]` that of `data[c]`, and `data[c]` that of `data[a]`.
/// Every other element stays. Where indices repeat, the result is that of the two
/// exchanges it is made of, at `a`, `b` and then at `b`, `c`.
pub fn bca_safe<T>(data: &mut [T], a: usize, b: usize, c: usize)
    requires
        in_bounds3(old(data)@.len() as int, a as int, b as int, c as int),
    ensures
        final(data)@ == seq_rotl(old(data)@, a as int, b as int, c as int),
        distinct3(a as int, b as int, c as int) ==> final(data)@ == old(data)@.update(
            a as int,
            old(data)@[b as int],
        ).update(b as int, old(data)@[c as int]).update(c as int, old(data)@[a as int]),
{
    exchange(data, a, b);
    exchange(data, b, c);
}

/// Rotates the elements at three distinct indices to the right: `data[a]` takes the
/// value of `data[c]`, `data[b]` that of `data[a]`, and `data[c]` that of `data[b]`.
/// Every other element stays. Where indices repeat, the result is that of the two
/// exchanges it is made of, at `a`, `c` and then at `b`, `c`.
pub fn cab_safe<T>(data: &mut [T], a: usize, b: usize, c: usize)
    requires
        in_bounds3(old(data)@.len() as int, a as int, b as int, c as int),
    ensures
        final(data)@ == seq_rotr(old(data)@, a as int, b as int, c as int),
        distinct3(a as int, b as int, c as int) ==> final(data)@ == old(data)@.update(
            a as int,
            old(data)@[c as int],
        ).update(b as int, old(data)@[a as int]).update(c as int, old(data)@[b as int]),
{
    exchange(data, a, c);
    exchange(data, b, c);
}

/// At three distinct indices, a left rotation of `(a, b, c)` leaves the same
/// sequence as a right rotation of `(c, b, a)`, and as one of `(a, c, b)`.
pub proof fn lemma_left_is_reversed_right<T>(s: Seq<T>, a: int, b: int, c: int)
    requires
        in_bounds3(s.len() as int, a, b, c),
        distinct3(a, b, c),
    ensures
        seq_rotl(s, a, b, c) == seq_rotr(s, c, b, a),
        seq_rotl(s, a, b, c) == seq_rotr(s, a, c, b),
{
    assert(seq_rotl(s, a, b, c) =~= seq_rotr(s, c, b, a));
    assert(seq_rotl(s, a, b, c) =~= seq_rotr(s, a, c, b));
}

} // verus!
