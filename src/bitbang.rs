//! Decisions of a bit-banged SPI master: which clock edges to drive and when
//! to sample in each mode, which bit of a byte goes out next, and how the
//! sampled bits assemble into a byte. Driving the pins is left to the caller.

use vstd::prelude::*;

verus! {

/// Errors of a bit-banged bus.
#[derive(Debug, PartialEq, Eq)]
pub enum Error<E> {
    /// A pin operation failed.
    Bus(E),
    /// A read was attempted with no input data.
    NoData,
}

/// Transmission bit order.
#[derive(Clone, Copy, Debug, PartialEq, Eq, Structural)]
pub enum BitOrder {
    /// Most significant bit first.
    MSBFirst,
    /// Least significant bit first.
    LSBFirst,
}

impl Default for BitOrder {
    /// Most significant bit first.
    fn default() -> (r: BitOrder)
        ensures
            r == BitOrder::MSBFirst,
    {
        BitOrder::MSBFirst
    }
}

/// Level of the clock line while idle.
#[derive(Clone, Copy, Debug, PartialEq, Eq, Structural)]
pub enum Polarity {
    IdleLow,
    IdleHigh,
}

/// Clock transition on which data is captured.
#[derive(Clone, Copy, Debug, PartialEq, Eq, Structural)]
pub enum Phase {
    CaptureOnFirstTransition,
    CaptureOnSecondTransition,
}

/// An SPI mode: clock polarity and phase.
#[derive(Clone, Copy, Debug, PartialEq, Eq, Structural)]
pub struct Mode {
    pub polarity: Polarity,
    pub phase: Phase,
}

/// One action of a clock cycle.
#[derive(Clone, Copy, Debug, PartialEq, Eq, Structural)]
pub enum ClockStep {
    /// Wait half a clock period.
    Wait,
    /// Drive the clock line high.
    ClockHigh,
    /// Drive the clock line low.
    ClockLow,
    /// Sample the input line into the byte being received.
    Sample,
}

/// The actions of one clock cycle in `mode`: the first transition leaves the
/// idle level and the second returns to it; data is sampled right after the
/// capturing transition, and the half-period wait comes before a transition
/// that captures on it, after one that does not.
pub open spec fn cycle_spec(mode: Mode) -> Seq<ClockStep> {
    let (leave, back) = match mode.polarity {
        Polarity::IdleLow => (ClockStep::ClockHigh, ClockStep::ClockLow),
        Polarity::IdleHigh => (ClockStep::ClockLow, ClockStep::ClockHigh),
    };
    match mode.phase {
        Phase::CaptureOnFirstTransition => seq![ClockStep::Wait, leave, ClockStep::Sample, ClockStep::Wait, back],
        Phase::CaptureOnSecondTransition => seq![leave, ClockStep::Wait, ClockStep::Sample, back, ClockStep::Wait],
    }
}

/// Bit `i` of `b`, counting from the least significant.
pub open spec fn bit_at(b: u8, i: u8) -> bool {
    (b >> i) & 1u8 == 1u8
}

/// `r` holds the bits of `b` in reverse order.
pub open spec fn is_bit_reversal(r: u8, b: u8) -> bool {
    forall|i: u8| i < 8 ==> bit_at(r, i) == bit_at(b, (7 - i) as u8)
}

/// The bits of `b` in reverse order.
pub fn reverse_bits(b: u8) -> (r: u8)
    ensures
        is_bit_reversal(r, b),
{
    let r: u8 = ((b & 1) << 7) | ((b & 2) << 5) | ((b & 4) << 3) | ((b & 8) << 1) | ((b & 16) >> 1)
        | ((b & 32) >> 3) | ((b & 64) >> 5) | ((b & 128) >> 7);
    proof {
        assert forall|i: u8| i < 8 implies bit_at(r, i) == bit_at(b, (7 - i) as u8) by {
            assert(bit_at(r, i) == bit_at(b, (7 - i) as u8)) by (bit_vector)
                requires
                    i < 8,
                    r == ((b & 1) << 7) | ((b & 2) << 5) | ((b & 4) << 3) | ((b & 8) << 1) | ((b
                        & 16) >> 1) | ((b & 32) >> 3) | ((b & 64) >> 5) | ((b & 128) >> 7),
            ;
        }
    }
    r
}

/// The state a bit-banged master keeps besides its pins.
#[derive(Clone, Copy, Debug, PartialEq, Eq, Structural)]
pub struct BitBang {
    pub mode: Mode,
    /// Half-period wait in nanoseconds.
    pub delay_ns: u32,
    /// The bits sampled so far, most recent in the lowest bit.
    pub read_val: Option<u8>,
    pub bit_order: BitOrder,
}

impl BitBang {
    /// A master in `mode`, with no wait, nothing read and the default order.
    pub fn new(mode: Mode) -> (r: BitBang)
        ensures
            r.mode == mode,
            r.delay_ns == 0,
            r.read_val.is_none(),
            r.bit_order == BitOrder::MSBFirst,
    {
        BitBang { mode, delay_ns: 0, read_val: None, bit_order: BitOrder::default() }
    }

    /// The same master with a preset wait.
    pub fn with_delay_ns(self, delay: u32) -> (r: BitBang)
        ensures
            r == (BitBang { delay_ns: delay, ..self }),
    {
        BitBang { delay_ns: delay, ..self }
    }

    /// Sets the transmission bit order.
    pub fn set_bit_order(&mut self, order: BitOrder)
        ensures
            *final(self) == (BitBang { bit_order: order, ..*old(self) }),
    {
        self.bit_order = order;
    }

    /// Changes the half-period wait.
    pub fn set_delay_ns(&mut self, delay: u32)
        ensures
            *final(self) == (BitBang { delay_ns: delay, ..*old(self) }),
    {
        self.delay_ns = delay;
    }

    /// Whether the clock idles high, the level to drive when the bus is set up.
    pub fn idle_clock_high(&self) -> (r: bool)
        ensures
            r == (self.mode.polarity == Polarity::IdleHigh),
    {
        match self.mode.polarity {
            Polarity::IdleLow => false,
            Polarity::IdleHigh => true,
        }
    }

    /// The actions of one clock cycle.
    pub fn cycle(&self) -> (r: [ClockStep; 5])
        ensures
            r@ == cycle_spec(self.mode),
    {
        let (leave, back) = match self.mode.polarity {
            Polarity::IdleLow => (ClockStep::ClockHigh, ClockStep::ClockLow),
            Polarity::IdleHigh => (ClockStep::ClockLow, ClockStep::ClockHigh),
        };
        let r = match self.mode.phase {
            Phase::CaptureOnFirstTransition => [ClockStep::Wait, leave, ClockStep::Sample, ClockStep::Wait, back],
            Phase::CaptureOnSecondTransition => [leave, ClockStep::Wait, ClockStep::Sample, back, ClockStep::Wait],
        };
        assert(r@ =~= cycle_spec(self.mode));
        r
    }

    /// Starts receiving a byte.
    pub fn begin_byte(&mut self)
        ensures
            *final(self) == (BitBang { read_val: Some(0u8), ..*old(self) }),
    {
        self.read_val = Some(0);
    }

    /// Shifts one sampled input bit into the byte being received.
    pub fn sample_bit(&mut self, is_high: bool)
        ensures
            final(self).mode == old(self).mode,
            final(self).delay_ns == old(self).delay_ns,
            final(self).bit_order == old(self).bit_order,
            final(self).read_val == Some(
                ((old(self).read_val.unwrap_or(0u8) as int * 2) % 256 + if is_high {
                    1int
                } else {
                    0int
                }) as u8,
            ),
    {
        let shifted: u8 = ((self.read_val.unwrap_or(0) as u16 * 2) % 256) as u8;
        self.read_val = Some(
            if is_high {
                shifted + 1
            } else {
                shifted
            },
        );
    }

    /// The received byte, in the transmission bit order.
    pub fn received_byte(&self) -> (r: u8)
        ensures
            self.bit_order == BitOrder::MSBFirst ==> r == self.read_val.unwrap_or(0u8),
            self.bit_order == BitOrder::LSBFirst ==> is_bit_reversal(r, self.read_val.unwrap_or(0u8)),
    {
        let v = self.read_val.unwrap_or(0);
        match self.bit_order {
            BitOrder::MSBFirst => v,
            BitOrder::LSBFirst => reverse_bits(v),
        }
    }

    /// Whether the output line goes high for the `offset`-th bit sent of `byte`.
    pub fn out_bit(&self, byte: u8, offset: u8) -> (r: bool)
        requires
            offset < 8,
        ensures
            self.bit_order == BitOrder::MSBFirst ==> r == bit_at(byte, (7 - offset) as u8),
            self.bit_order == BitOrder::LSBFirst ==> r == bit_at(byte, offset),
    {
        let shift = match self.bit_order {
            BitOrder::MSBFirst => 7 - offset,
            BitOrder::LSBFirst => offset,
        };
        (byte >> shift) & 1 == 1
    }
}

} // verus!
