//! The XPT2046 driver: a windowed filter that turns the stream of raw samples
//! into touch events.
//!
//! Each in-range sample is pushed to the front of a buffer of at most
//! `SAMPLE_CAPACITY` samples. Nothing is reported until `SAMPLE_THRESHOLD`
//! samples have accumulated; from then on every sample reports the average of
//! the buffer, calibrated when a calibration is present: `Start` when the
//! threshold is first reached, `Move` afterwards. An out-of-range sample means
//! no contact: it empties the buffer and reports `End` at the last reported
//! point, but only after a sustained contact that filled the buffer.

use vstd::prelude::*;
use crate::calibration::CalibrationData;
use crate::samples::{
    buffer_as_slice, buffer_clear, buffer_insert, buffer_len, buffer_new, buffer_pop, samples_of,
    RawSample, SampleBuffer, SAMPLE_CAPACITY,
};
use crate::touch::{Point, TouchEvent, TouchKind, TouchScreen, Transport};

verus! {

/// Number of buffered samples needed before a contact is reported.
pub const SAMPLE_THRESHOLD: usize = 5;

/// Largest value of one ADC axis that a buffer can hold.
pub const AXIS_MAX: u32 = 65535;

/// The controller's no-contact band: a reading below the ADC floor or above
/// the ceiling on either axis.
pub open spec fn out_of_range_spec(raw: RawSample) -> bool {
    raw.0 < 250 || raw.1 < 230 || raw.0 > 4000 || raw.1 > 3900
}

/// Whether a raw sample lies in the no-contact band.
pub fn out_of_range(raw: (u16, u16)) -> (r: bool)
    ensures
        r == out_of_range_spec(raw),
{
    let (x, y) = raw;
    if x < 250 || y < 230 || x > 4000 || y > 3900 {
        true
    } else {
        false
    }
}

/// Sum of the x readings.
pub open spec fn sum_x(s: Seq<RawSample>) -> int
    decreases s.len(),
{
    if s.len() == 0 {
        0
    } else {
        sum_x(s.drop_last()) + s.last().0
    }
}

/// Sum of the y readings.
pub open spec fn sum_y(s: Seq<RawSample>) -> int
    decreases s.len(),
{
    if s.len() == 0 {
        0
    } else {
        sum_y(s.drop_last()) + s.last().1
    }
}

/// The average sample, each axis rounded down.
pub open spec fn average(s: Seq<RawSample>) -> (int, int) {
    (sum_x(s) / (s.len() as int), sum_y(s) / (s.len() as int))
}

/// The point reported for a buffer: its average, calibrated when a
/// calibration is present.
pub open spec fn event_point(cal: Option<CalibrationData>, s: Seq<RawSample>) -> Point {
    let (x, y) = average(s);
    match cal {
        Some(c) => c.apply_spec(x, y),
        None => Point { x: x as i32, y: y as i32 },
    }
}

/// The buffer after one sample: emptied by an out-of-range sample, otherwise
/// the sample in front and the oldest dropped when the buffer was full.
pub open spec fn next_samples(s: Seq<RawSample>, raw: RawSample) -> Seq<RawSample> {
    if out_of_range_spec(raw) {
        Seq::empty()
    } else if s.len() >= SAMPLE_CAPACITY {
        seq![raw] + s.take(SAMPLE_CAPACITY - 1)
    } else {
        seq![raw] + s
    }
}

/// The event reported for one sample, given the buffer before it.
pub open spec fn next_event(s: Seq<RawSample>, cal: Option<CalibrationData>, raw: RawSample) -> Option<
    TouchEvent,
> {
    if out_of_range_spec(raw) {
        if s.len() >= SAMPLE_CAPACITY {
            Some(TouchEvent { point: event_point(cal, s), kind: TouchKind::End })
        } else {
            None
        }
    } else {
        let n = next_samples(s, raw);
        if n.len() < SAMPLE_THRESHOLD {
            None
        } else {
            Some(
                TouchEvent {
                    point: event_point(cal, n),
                    kind: if n.len() == SAMPLE_THRESHOLD {
                        TouchKind::Start
                    } else {
                        TouchKind::Move
                    },
                },
            )
        }
    }
}

/// Both sums of a buffer lie between zero and its length times `AXIS_MAX`.
proof fn lemma_sum_bounds(s: Seq<RawSample>)
    ensures
        0 <= sum_x(s) <= s.len() * AXIS_MAX,
        0 <= sum_y(s) <= s.len() * AXIS_MAX,
    decreases s.len(),
{
    if s.len() > 0 {
        lemma_sum_bounds(s.drop_last());
    }
}

/// The average of a non-empty buffer, each axis rounded down.
fn average_of(s: &[RawSample]) -> (r: (u16, u16))
    requires
        0 < s@.len() <= SAMPLE_CAPACITY,
    ensures
        r.0 as int == average(s@).0,
        r.1 as int == average(s@).1,
{
    let mut sx: u32 = 0;
    let mut sy: u32 = 0;
    let mut i: usize = 0;
    while i < s.len()
        invariant
            0 <= i <= s@.len() <= SAMPLE_CAPACITY,
            sx == sum_x(s@.take(i as int)),
            sy == sum_y(s@.take(i as int)),
        decreases s@.len() - i,
    {
        proof {
            assert(s@.take(i + 1).drop_last() =~= s@.take(i as int));
            lemma_sum_bounds(s@.take(i as int));
        }
        sx = sx + s[i].0 as u32;
        sy = sy + s[i].1 as u32;
        i = i + 1;
    }
    proof {
        assert(s@.take(s@.len() as int) =~= s@);
        lemma_sum_bounds(s@);
        let n = s@.len() as int;
        vstd::arithmetic::div_mod::lemma_div_is_ordered(sx as int, n * AXIS_MAX, n);
        vstd::arithmetic::div_mod::lemma_div_is_ordered(sy as int, n * AXIS_MAX, n);
        vstd::arithmetic::div_mod::lemma_div_multiples_vanish(AXIS_MAX as int, n);
        assert(n * AXIS_MAX == AXIS_MAX * n) by (nonlinear_arith);
        vstd::arithmetic::div_mod::lemma_div_pos_is_pos(sx as int, n);
        vstd::arithmetic::div_mod::lemma_div_pos_is_pos(sy as int, n);
    }
    let len = s.len() as u32;
    ((sx / len) as u16, (sy / len) as u16)
}

/// The windowed sample filter and touch state machine.
pub struct TouchFilter {
    touch_samples: SampleBuffer,
    calibration: Option<CalibrationData>,
}

impl TouchFilter {
    /// A present calibration is well formed.
    #[verifier::type_invariant]
    spec fn calibration_is_wf(self) -> bool {
        self.calibration matches Some(c) ==> c.wf()
    }

    /// The buffered raw samples, newest first.
    pub closed spec fn samples(self) -> Seq<RawSample> {
        samples_of(self.touch_samples)
    }

    /// The calibration applied to reported points, if any.
    pub closed spec fn calibration_spec(self) -> Option<CalibrationData> {
        self.calibration
    }

    /// A filter with an empty buffer (no contact).
    pub fn new(calibration: Option<CalibrationData>) -> (r: Self)
        requires
            calibration matches Some(c) ==> c.wf(),
        ensures
            r.samples() == Seq::<RawSample>::empty(),
            r.calibration_spec() == calibration,
    {
        TouchFilter { touch_samples: buffer_new(), calibration }
    }

    /// Whether a calibration is present.
    pub fn calibrated(&self) -> (r: bool)
        ensures
            r == self.calibration_spec().is_some(),
    {
        self.calibration.is_some()
    }

    /// The calibration in use, if any.
    pub fn calibration(&self) -> (r: Option<CalibrationData>)
        ensures
            r == self.calibration_spec(),
            r matches Some(c) ==> c.wf(),
    {
        proof {
            use_type_invariant(self);
        }
        self.calibration
    }

    /// Replaces the calibration; the buffered samples stay.
    pub fn set_calibration(&mut self, calibration: Option<CalibrationData>)
        requires
            calibration matches Some(c) ==> c.wf(),
        ensures
            final(self).calibration_spec() == calibration,
            final(self).samples() == old(self).samples(),
    {
        self.calibration = calibration;
    }

    /// The point reported for a buffer.
    fn point_for(&self, s: &[RawSample]) -> (r: Point)
        requires
            0 < s@.len() <= SAMPLE_CAPACITY,
        ensures
            r == event_point(self.calibration_spec(), s@),
    {
        proof {
            use_type_invariant(self);
        }
        let (x, y) = average_of(s);
        match &self.calibration {
            Some(c) => c.apply(x, y),
            None => Point { x: x as i32, y: y as i32 },
        }
    }

    /// Feeds one raw sample to the filter and returns the event it causes.
    pub fn process_sample(&mut self, raw: RawSample) -> (r: Option<TouchEvent>)
        ensures
            final(self).samples() == next_samples(old(self).samples(), raw),
            r == next_event(old(self).samples(), old(self).calibration_spec(), raw),
            final(self).calibration_spec() == old(self).calibration_spec(),
    {
        proof {
            use_type_invariant(&*self);
        }
        let len = buffer_len(&self.touch_samples);
        let at_capacity = len == SAMPLE_CAPACITY;
        if out_of_range(raw) {
            if len == 0 {
                return None;
            }
            let event = if at_capacity {
                let point = self.point_for(buffer_as_slice(&self.touch_samples));
                Some(TouchEvent { point, kind: TouchKind::End })
            } else {
                None
            };
            buffer_clear(&mut self.touch_samples);
            return event;
        }
        let ghost before = samples_of(self.touch_samples);
        if at_capacity {
            let _ = buffer_pop(&mut self.touch_samples);
        }
        let _ = buffer_insert(&mut self.touch_samples, 0, raw);
        proof {
            if len == SAMPLE_CAPACITY {
                assert(before.drop_last() =~= before.take(SAMPLE_CAPACITY - 1));
            }
            assert(samples_of(self.touch_samples) =~= next_samples(before, raw));
        }
        let n = buffer_len(&self.touch_samples);
        if n < SAMPLE_THRESHOLD {
            return None;
        }
        let point = self.point_for(buffer_as_slice(&self.touch_samples));
        let kind = if n == SAMPLE_THRESHOLD {
            TouchKind::Start
        } else {
            TouchKind::Move
        };
        Some(TouchEvent { point, kind })
    }
}

/// The XPT2046 touch controller driver: a transport that reads raw samples,
/// and the filter they go through.
pub struct Xpt2046<T> {
    transport: T,
    filter: TouchFilter,
}

impl<T> Xpt2046<T> {
    /// The filter state.
    pub closed spec fn filter_spec(self) -> TouchFilter {
        self.filter
    }

    /// A driver with an empty buffer.
    pub fn new(transport: T, calibration: Option<CalibrationData>) -> (r: Self)
        requires
            calibration matches Some(c) ==> c.wf(),
        ensures
            r.filter_spec().samples() == Seq::<RawSample>::empty(),
            r.filter_spec().calibration_spec() == calibration,
    {
        Xpt2046 { transport, filter: TouchFilter::new(calibration) }
    }

    /// Whether a calibration is present.
    pub fn calibrated(&self) -> (r: bool)
        ensures
            r == self.filter_spec().calibration_spec().is_some(),
    {
        self.filter.calibrated()
    }

    /// The filter state.
    pub fn filter(&self) -> (r: &TouchFilter)
        ensures
            *r == self.filter_spec(),
    {
        &self.filter
    }

    /// Replaces the calibration; the buffered samples stay.
    pub fn set_calibration(&mut self, calibration: Option<CalibrationData>)
        requires
            calibration matches Some(c) ==> c.wf(),
        ensures
            final(self).filter_spec().calibration_spec() == calibration,
            final(self).filter_spec().samples() == old(self).filter_spec().samples(),
    {
        self.filter.set_calibration(calibration);
    }
}

impl<T: Transport> TouchScreen for Xpt2046<T> {
    type TouchError = T::Error;

    /// Reads one sample and feeds it to the filter. A transport error is
    /// handed on and leaves the filter as it was.
    fn get_touch_event(&mut self) -> (r: Result<Option<TouchEvent>, T::Error>)
        ensures
            final(self).filter_spec().calibration_spec() == old(self).filter_spec().calibration_spec(),
            r.is_err() ==> final(self).filter_spec().samples() == old(self).filter_spec().samples(),
            r.is_ok() ==> exists|raw: RawSample|
                final(self).filter_spec().samples() == next_samples(old(self).filter_spec().samples(), raw)
                    && r->Ok_0 == next_event(
                    old(self).filter_spec().samples(),
                    old(self).filter_spec().calibration_spec(),
                    raw,
                ),
    {
        let raw = match self.transport.read_xy() {
            Ok(raw) => raw,
            Err(e) => return Err(e),
        };
        Ok(self.filter.process_sample(raw))
    }
}

} // verus!
