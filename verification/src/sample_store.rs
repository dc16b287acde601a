//! Fixed-capacity storage for raw heart-rate samples, kept in a
//! `heapless::Vec` so the buffer lives inline with no allocation.
//!
//! The vector itself is outside code; this module declares it and gives
//! each operation the sensor pipeline calls a narrow trusted contract
//! phrased over [`sample_slots`], the sequence of values it holds.

use vstd::prelude::*;

verus! {

/// Capacity of the sample vector (slots allocated inline).
pub const STORE_CAPACITY: usize = 256;

#[verifier::external_type_specification]
#[verifier::external_body]
#[verifier::reject_recursive_types(T)]
pub struct ExHeaplessVec<T, const N: usize>(heapless::Vec<T, N>);

/// The values the sample vector holds, first slot first.
pub uninterp spec fn sample_slots(v: heapless::Vec<u32, 256>) -> Seq<u32>;

/// Relies on `heapless::Vec::new`: a freshly built vector is empty.
#[verifier::external_body]
pub fn store_new() -> (r: heapless::Vec<u32, 256>)
    ensures
        sample_slots(r) == Seq::<u32>::empty(),
{
    heapless::Vec::new()
}

/// Relies on `heapless::Vec::resize_default`: lengths over the capacity
/// are rejected and leave the vector alone; otherwise the vector is
/// truncated to `new_len` or extended with `u32::default()` (zero) up to
/// it.
#[verifier::external_body]
pub fn store_resize_default(v: &mut heapless::Vec<u32, 256>, new_len: usize) -> (r: Result<
    (),
    (),
>)
    ensures
        r is Ok <==> new_len <= STORE_CAPACITY,
        new_len > STORE_CAPACITY ==> sample_slots(*final(v)) == sample_slots(*old(v)),
        new_len <= STORE_CAPACITY ==> sample_slots(*final(v)) == (if new_len
            <= sample_slots(*old(v)).len() {
            sample_slots(*old(v)).take(new_len as int)
        } else {
            sample_slots(*old(v)) + Seq::new(
                (new_len - sample_slots(*old(v)).len()) as nat,
                |i: int| 0u32,
            )
        }),
{
    v.resize_default(new_len)
}

/// Relies on slice indexing through `heapless::Vec`'s `Deref`.
#[verifier::external_body]
pub fn store_get(v: &heapless::Vec<u32, 256>, i: usize) -> (r: u32)
    requires
        i < sample_slots(*v).len(),
    ensures
        r == sample_slots(*v)[i as int],
{
    v[i]
}

/// Relies on slice element assignment through `heapless::Vec`'s
/// `DerefMut`.
#[verifier::external_body]
pub fn store_set(v: &mut heapless::Vec<u32, 256>, i: usize, value: u32)
    requires
        i < sample_slots(*old(v)).len(),
    ensures
        sample_slots(*final(v)) == sample_slots(*old(v)).update(i as int, value),
{
    v[i] = value;
}

/// Relies on `heapless::Vec::as_slice`: a view of every held value, in
/// order.
#[verifier::external_body]
pub fn store_as_slice(v: &heapless::Vec<u32, 256>) -> (r: &[u32])
    ensures
        r@ == sample_slots(*v),
{
    v.as_slice()
}

} // verus!
