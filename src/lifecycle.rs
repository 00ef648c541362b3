//! What the filter reports over a whole stream of samples, and the rules of a
//! contact's life that follow from the single-step behaviour.

use vstd::prelude::*;
use crate::calibration::CalibrationData;
use crate::samples::{RawSample, SAMPLE_CAPACITY};
use crate::touch::{TouchEvent, TouchKind};
use crate::xpt2046::{event_point, next_event, next_samples, out_of_range_spec, SAMPLE_THRESHOLD};

verus! {

/// The buffer after feeding `inputs`, in order, to a filter holding `s`.
pub open spec fn samples_after(s: Seq<RawSample>, inputs: Seq<RawSample>) -> Seq<RawSample>
    decreases inputs.len(),
{
    if inputs.len() == 0 {
        s
    } else {
        next_samples(samples_after(s, inputs.drop_last()), inputs.last())
    }
}

/// The events reported while feeding `inputs`, one entry per sample.
pub open spec fn events(s: Seq<RawSample>, cal: Option<CalibrationData>, inputs: Seq<RawSample>) -> Seq<
    Option<TouchEvent>,
>
    decreases inputs.len(),
{
    if inputs.len() == 0 {
        Seq::empty()
    } else {
        events(s, cal, inputs.drop_last()).push(
            next_event(samples_after(s, inputs.drop_last()), cal, inputs.last()),
        )
    }
}

/// Every sample of `inputs` is in range: an uninterrupted contact.
pub open spec fn all_in_range(inputs: Seq<RawSample>) -> bool {
    forall|j: int| 0 <= j < inputs.len() ==> !out_of_range_spec(#[trigger] inputs[j])
}

/// The smaller of `a` and `b`.
pub open spec fn min(a: int, b: int) -> int {
    if a < b {
        a
    } else {
        b
    }
}

/// One event per sample.
proof fn lemma_events_len(s: Seq<RawSample>, cal: Option<CalibrationData>, inputs: Seq<RawSample>)
    ensures
        events(s, cal, inputs).len() == inputs.len(),
    decreases inputs.len(),
{
    if inputs.len() > 0 {
        lemma_events_len(s, cal, inputs.drop_last());
    }
}

/// The event for the `i`-th sample is the single-step event on the buffer
/// left by the samples before it.
proof fn lemma_events_index(s: Seq<RawSample>, cal: Option<CalibrationData>, inputs: Seq<RawSample>, i: int)
    requires
        0 <= i < inputs.len(),
    ensures
        events(s, cal, inputs).len() == inputs.len(),
        events(s, cal, inputs)[i] == next_event(samples_after(s, inputs.take(i)), cal, inputs[i]),
    decreases inputs.len(),
{
    let d = inputs.drop_last();
    lemma_events_len(s, cal, inputs);
    lemma_events_len(s, cal, d);
    if i < inputs.len() - 1 {
        lemma_events_index(s, cal, d, i);
        assert(d.take(i) =~= inputs.take(i));
    } else {
        assert(d =~= inputs.take(i));
    }
}

/// Along an uninterrupted contact the buffer grows by one sample per input
/// until it is full.
proof fn lemma_contact_length(s: Seq<RawSample>, inputs: Seq<RawSample>)
    requires
        s.len() <= SAMPLE_CAPACITY,
        all_in_range(inputs),
    ensures
        samples_after(s, inputs).len() == min((s.len() + inputs.len()) as int, SAMPLE_CAPACITY as int),
    decreases inputs.len(),
{
    if inputs.len() > 0 {
        let d = inputs.drop_last();
        assert(all_in_range(d)) by {
            assert forall|j: int| 0 <= j < d.len() implies !out_of_range_spec(#[trigger] d[j]) by {
                assert(d[j] == inputs[j]);
            }
        }
        lemma_contact_length(s, d);
        assert(!out_of_range_spec(inputs[inputs.len() - 1]));
    }
}

/// The buffer after the first `i + 1` inputs is the single-step buffer after
/// the first `i`.
proof fn lemma_samples_after_step(s: Seq<RawSample>, inputs: Seq<RawSample>, i: int)
    requires
        0 <= i < inputs.len(),
    ensures
        samples_after(s, inputs.take(i + 1)) == next_samples(samples_after(s, inputs.take(i)), inputs[i]),
{
    assert(inputs.take(i + 1).drop_last() =~= inputs.take(i));
}

/// The first `i` samples of an uninterrupted contact are one too.
proof fn lemma_prefix_in_range(inputs: Seq<RawSample>, i: int)
    requires
        0 <= i <= inputs.len(),
        all_in_range(inputs),
    ensures
        all_in_range(inputs.take(i)),
{
    assert forall|j: int| 0 <= j < inputs.take(i).len() implies !out_of_range_spec(
        #[trigger] inputs.take(i)[j],
    ) by {
        assert(inputs.take(i)[j] == inputs[j]);
    }
}

/// A sample in the no-contact band is treated as no contact: the buffer is
/// emptied and the only event it can cause is `End`.
pub proof fn lemma_out_of_range_is_no_contact(s: Seq<RawSample>, cal: Option<CalibrationData>, raw: RawSample)
    requires
        out_of_range_spec(raw),
    ensures
        next_samples(s, raw).len() == 0,
        next_event(s, cal, raw) matches Some(e) ==> e.kind == TouchKind::End,
{
}

/// From no contact, a contact of fewer than `SAMPLE_THRESHOLD` samples
/// reports nothing.
pub proof fn lemma_short_contact_is_silent(cal: Option<CalibrationData>, inputs: Seq<RawSample>)
    requires
        inputs.len() < SAMPLE_THRESHOLD,
        all_in_range(inputs),
    ensures
        events(Seq::empty(), cal, inputs).len() == inputs.len(),
        forall|i: int| 0 <= i < inputs.len() ==> (#[trigger] events(Seq::empty(), cal, inputs)[i]).is_none(),
{
    lemma_contact_reports(cal, inputs);
}

/// From no contact, an uninterrupted contact reports nothing for its first
/// `SAMPLE_THRESHOLD - 1` samples, then `Start`, then `Move` for every later
/// sample, each at the point of the buffer it leaves.
pub proof fn lemma_contact_reports(cal: Option<CalibrationData>, inputs: Seq<RawSample>)
    requires
        all_in_range(inputs),
    ensures
        events(Seq::empty(), cal, inputs).len() == inputs.len(),
        forall|i: int|
            0 <= i < inputs.len() ==> #[trigger] events(Seq::empty(), cal, inputs)[i] == if i + 1
                < SAMPLE_THRESHOLD {
                None
            } else {
                Some(
                    TouchEvent {
                        point: event_point(cal, samples_after(Seq::empty(), inputs.take(i + 1))),
                        kind: if i + 1 == SAMPLE_THRESHOLD {
                            TouchKind::Start
                        } else {
                            TouchKind::Move
                        },
                    },
                )
            },
{
    let e = Seq::<RawSample>::empty();
    if inputs.len() > 0 {
        lemma_events_index(e, cal, inputs, 0);
    }
    assert forall|i: int| 0 <= i < inputs.len() implies #[trigger] events(e, cal, inputs)[i] == if i
        + 1 < SAMPLE_THRESHOLD {
        None
    } else {
        Some(
            TouchEvent {
                point: event_point(cal, samples_after(e, inputs.take(i + 1))),
                kind: if i + 1 == SAMPLE_THRESHOLD {
                    TouchKind::Start
                } else {
                    TouchKind::Move
                },
            },
        )
    } by {
        lemma_events_index(e, cal, inputs, i);
        lemma_prefix_in_range(inputs, i);
        lemma_contact_length(e, inputs.take(i));
        lemma_samples_after_step(e, inputs, i);
    }
}

/// From no contact, a contact of `inputs` followed by one sample in the
/// no-contact band reports `End` exactly when the contact filled the buffer,
/// at the point last reported; otherwise the release reports nothing. No
/// sample of the contact itself reports `End`.
pub proof fn lemma_release_ends_only_full_contact(
    cal: Option<CalibrationData>,
    inputs: Seq<RawSample>,
    release: RawSample,
)
    requires
        all_in_range(inputs),
        out_of_range_spec(release),
    ensures
        ({
            let ev = events(Seq::empty(), cal, inputs.push(release));
            let k = inputs.len() as int;
            &&& ev.len() == k + 1
            &&& forall|i: int| 0 <= i < k ==> !(#[trigger] ev[i] matches Some(x) && x.kind == TouchKind::End)
            &&& k >= SAMPLE_CAPACITY ==> ev[k] == Some(TouchEvent { point: ev[k - 1]->Some_0.point, kind: TouchKind::End })
            &&& k < SAMPLE_CAPACITY ==> ev[k].is_none()
        }),
{
    let e = Seq::<RawSample>::empty();
    let all = inputs.push(release);
    let k = inputs.len() as int;
    lemma_events_index(e, cal, all, k);
    assert(all.take(k) =~= inputs);
    assert(all.drop_last() =~= inputs);
    lemma_contact_reports(cal, inputs);
    lemma_contact_length(e, inputs);
    assert forall|i: int| 0 <= i < k implies !(#[trigger] events(e, cal, all)[i] matches Some(
        x,
    ) && x.kind == TouchKind::End) by {
        assert(events(e, cal, all)[i] == events(e, cal, inputs)[i]);
    }
    if k >= SAMPLE_CAPACITY {
        assert(events(e, cal, all)[k - 1] == events(e, cal, inputs)[k - 1]);
        assert(inputs.take(k) =~= inputs);
    }
}

} // verus!
