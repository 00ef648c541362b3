//! The bounded buffer of raw samples that the filter keeps, a fixed-capacity
//! `heapless::Vec`, seen through the sequence of samples it holds.

use vstd::prelude::*;

verus! {

/// Number of raw samples the filter keeps.
pub const SAMPLE_CAPACITY: usize = 10;

/// A raw `(x, y)` reading of the controller's two ADC channels.
pub type RawSample = (u16, u16);

/// The sample buffer: newest sample first.
pub type SampleBuffer = heapless::Vec<RawSample, SAMPLE_CAPACITY>;

#[verifier::external_type_specification]
#[verifier::external_body]
#[verifier::reject_recursive_types(T)]
pub struct ExHeaplessVec<T, const N: usize>(heapless::Vec<T, N>);

/// The samples a buffer holds, in order.
pub uninterp spec fn samples_of(v: SampleBuffer) -> Seq<RawSample>;

/// Relies on `heapless::Vec::new`: the new vector is empty.
#[verifier::external_body]
pub(crate) fn buffer_new() -> (r: SampleBuffer)
    ensures
        samples_of(r) == Seq::<RawSample>::empty(),
{
    heapless::Vec::new()
}

/// Relies on `heapless::Vec::len` (the slice length): the number of elements,
/// which never exceeds the capacity.
#[verifier::external_body]
pub(crate) fn buffer_len(v: &SampleBuffer) -> (r: usize)
    ensures
        r == samples_of(*v).len() && r <= SAMPLE_CAPACITY,
{
    v.len()
}

/// Relies on `heapless::Vec::clear`: every element is removed, without panic.
#[verifier::external_body]
pub(crate) fn buffer_clear(v: &mut SampleBuffer)
    ensures
        samples_of(*final(v)) == Seq::<RawSample>::empty(),
    no_unwind
{
    v.clear()
}

/// Relies on `heapless::Vec::pop`: removes and returns the last element, or
/// returns `None` and leaves an empty vector unchanged; it does not panic.
#[verifier::external_body]
pub(crate) fn buffer_pop(v: &mut SampleBuffer) -> (r: Option<RawSample>)
    ensures
        samples_of(*old(v)).len() == 0 ==> r.is_none() && samples_of(*final(v)) == samples_of(
            *old(v),
        ),
        samples_of(*old(v)).len() > 0 ==> r == Some(samples_of(*old(v)).last()) && samples_of(
            *final(v),
        ) == samples_of(*old(v)).drop_last(),
    no_unwind
{
    v.pop()
}

/// Relies on `heapless::Vec::insert`: on a vector below capacity the element
/// goes in at `index` and the later ones shift right; on a full vector the
/// element is handed back and nothing changes. It panics when `index > len`.
#[verifier::external_body]
pub(crate) fn buffer_insert(v: &mut SampleBuffer, index: usize, element: RawSample) -> (r: Result<(), RawSample>)
    requires
        index <= samples_of(*old(v)).len(),
    ensures
        samples_of(*old(v)).len() < SAMPLE_CAPACITY ==> r.is_ok() && samples_of(*final(v))
            == samples_of(*old(v)).insert(index as int, element),
        samples_of(*old(v)).len() >= SAMPLE_CAPACITY ==> r.is_err() && r->Err_0 == element
            && samples_of(*final(v)) == samples_of(*old(v)),
    no_unwind
{
    v.insert(index, element)
}

/// Relies on `heapless::Vec::as_slice`: the elements, in order.
#[verifier::external_body]
pub(crate) fn buffer_as_slice(v: &SampleBuffer) -> (r: &[RawSample])
    ensures
        r@ == samples_of(*v),
{
    v.as_slice()
}

} // verus!
