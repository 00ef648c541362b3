use xpt2046::bitbang::reverse_bits;
use xpt2046::ClockStep::{ClockHigh, ClockLow, Sample, Wait};
use xpt2046::{BitBang, BitOrder, Mode, Phase, Polarity};

fn mode(polarity: Polarity, phase: Phase) -> Mode {
    Mode { polarity, phase }
}

#[test]
fn default_bit_order_is_msb_first() {
    assert_eq!(BitOrder::default(), BitOrder::MSBFirst);
}

#[test]
fn reverse_bits_matches_std() {
    for b in 0..=255u8 {
        assert_eq!(reverse_bits(b), b.reverse_bits());
    }
    assert_eq!(reverse_bits(0b0000_0001), 0b1000_0000);
    assert_eq!(reverse_bits(0b1100_1010), 0b0101_0011);
}

#[test]
fn sampled_bits_assemble_a_byte() {
    let mut bb = BitBang::new(mode(Polarity::IdleLow, Phase::CaptureOnFirstTransition));
    bb.begin_byte();
    for bit in [true, false, true, true, false, false, true, false] {
        bb.sample_bit(bit);
    }
    assert_eq!(bb.read_val, Some(0b1011_0010));
    assert_eq!(bb.received_byte(), 0b1011_0010);
    bb.set_bit_order(BitOrder::LSBFirst);
    assert_eq!(bb.received_byte(), 0b0100_1101);
}

#[test]
fn sampling_drops_bits_beyond_eight() {
    let mut bb = BitBang::new(mode(Polarity::IdleLow, Phase::CaptureOnFirstTransition));
    bb.begin_byte();
    for _ in 0..9 {
        bb.sample_bit(true);
    }
    assert_eq!(bb.read_val, Some(0xFF));
    bb.sample_bit(false);
    assert_eq!(bb.read_val, Some(0xFE));
}

#[test]
fn output_bits_follow_the_bit_order() {
    let mut bb = BitBang::new(mode(Polarity::IdleHigh, Phase::CaptureOnSecondTransition));
    let sent: Vec<bool> = (0..8).map(|i| bb.out_bit(0b1000_0110, i)).collect();
    assert_eq!(sent, vec![true, false, false, false, false, true, true, false]);
    bb.set_bit_order(BitOrder::LSBFirst);
    let sent: Vec<bool> = (0..8).map(|i| bb.out_bit(0b1000_0110, i)).collect();
    assert_eq!(sent, vec![false, true, true, false, false, false, false, true]);
}

#[test]
fn clock_cycles_of_the_four_modes() {
    let m0 = BitBang::new(mode(Polarity::IdleLow, Phase::CaptureOnFirstTransition));
    let m1 = BitBang::new(mode(Polarity::IdleLow, Phase::CaptureOnSecondTransition));
    let m2 = BitBang::new(mode(Polarity::IdleHigh, Phase::CaptureOnFirstTransition));
    let m3 = BitBang::new(mode(Polarity::IdleHigh, Phase::CaptureOnSecondTransition));
    assert_eq!(m0.cycle(), [Wait, ClockHigh, Sample, Wait, ClockLow]);
    assert_eq!(m1.cycle(), [ClockHigh, Wait, Sample, ClockLow, Wait]);
    assert_eq!(m2.cycle(), [Wait, ClockLow, Sample, Wait, ClockHigh]);
    assert_eq!(m3.cycle(), [ClockLow, Wait, Sample, ClockHigh, Wait]);
    assert!(!m0.idle_clock_high());
    assert!(m3.idle_clock_high());
}

#[test]
fn delay_settings() {
    let bb = BitBang::new(mode(Polarity::IdleLow, Phase::CaptureOnFirstTransition)).with_delay_ns(500);
    assert_eq!(bb.delay_ns, 500);
    let mut bb = bb;
    bb.set_delay_ns(20);
    assert_eq!(bb.delay_ns, 20);
    assert_eq!(bb.read_val, None);
}
