use xpt2046::{
    out_of_range, CalibrationData, Point, TouchEvent, TouchFilter, TouchKind, TouchScreen,
    Transport, Xpt2046,
};

const OUT: (u16, u16) = (0, 0);

fn feed(filter: &mut TouchFilter, samples: &[(u16, u16)]) -> Vec<Option<TouchEvent>> {
    samples.iter().map(|s| filter.process_sample(*s)).collect()
}

fn event(x: i32, y: i32, kind: TouchKind) -> Option<TouchEvent> {
    Some(TouchEvent { point: Point::new(x, y), kind })
}

#[test]
fn no_contact_band_edges() {
    assert!(out_of_range((249, 1000)));
    assert!(out_of_range((1000, 229)));
    assert!(out_of_range((4001, 1000)));
    assert!(out_of_range((1000, 3901)));
    assert!(out_of_range((0, 0)));
    assert!(!out_of_range((250, 230)));
    assert!(!out_of_range((4000, 3900)));
    assert!(!out_of_range((2000, 2000)));
}

#[test]
fn out_of_range_sample_is_no_contact() {
    let mut f = TouchFilter::new(None);
    assert_eq!(f.process_sample((100, 2000)), None);
    assert_eq!(f.process_sample((2000, 4000)), None);
    let ev = feed(&mut f, &[(1000, 1000); 4]);
    assert!(ev.iter().all(|e| e.is_none()));
}

#[test]
fn fewer_than_threshold_samples_emit_nothing() {
    let mut f = TouchFilter::new(None);
    let ev = feed(&mut f, &[(1000, 1000), (1010, 1000), (1020, 1000), (1030, 1000)]);
    assert_eq!(ev, vec![None, None, None, None]);
}

#[test]
fn threshold_sample_starts_and_later_samples_move() {
    let mut f = TouchFilter::new(None);
    let ev = feed(&mut f, &[(1000, 2000); 8]);
    assert_eq!(&ev[..4], &[None, None, None, None]);
    assert_eq!(ev[4], event(1000, 2000, TouchKind::Start));
    for e in &ev[5..] {
        assert_eq!(*e, event(1000, 2000, TouchKind::Move));
    }
}

#[test]
fn release_after_full_buffer_ends_at_last_point() {
    let mut f = TouchFilter::new(None);
    let samples: Vec<(u16, u16)> = (0..10).map(|i| (1000 + 10 * i, 2000)).collect();
    let ev = feed(&mut f, &samples);
    // average of 1000, 1010, ..., 1090
    assert_eq!(ev[9], event(1045, 2000, TouchKind::Move));
    assert_eq!(f.process_sample(OUT), event(1045, 2000, TouchKind::End));
    // a second no-contact sample reports nothing more
    assert_eq!(f.process_sample(OUT), None);
}

#[test]
fn release_before_full_buffer_is_silent() {
    let mut f = TouchFilter::new(None);
    let ev = feed(&mut f, &[(1000, 2000); 9]);
    assert_eq!(ev[8], event(1000, 2000, TouchKind::Move));
    assert_eq!(f.process_sample(OUT), None);
    // the buffer was cleared: a new contact starts from scratch
    let ev = feed(&mut f, &[(3000, 3000); 5]);
    assert_eq!(&ev[..4], &[None, None, None, None]);
    assert_eq!(ev[4], event(3000, 3000, TouchKind::Start));
}

#[test]
fn brief_tap_reports_start_and_no_end() {
    let mut f = TouchFilter::new(Some(CalibrationData::default()));
    let mut ev = feed(&mut f, &[(300, 300), (305, 305), (305, 305), (305, 305), (305, 305)]);
    ev.push(f.process_sample((10, 10)));
    let emitted: Vec<TouchEvent> = ev.into_iter().flatten().collect();
    assert_eq!(emitted, vec![TouchEvent { point: Point::new(304, 304), kind: TouchKind::Start }]);
}

#[test]
fn window_keeps_only_the_newest_ten_samples() {
    let mut f = TouchFilter::new(None);
    feed(&mut f, &[(4000, 3900); 10]);
    let ev = feed(&mut f, &[(1000, 1000); 10]);
    // after k new samples the average is ((10 - k) * 4000 + k * 1000) / 10
    assert_eq!(ev[0], event(3700, 3610, TouchKind::Move));
    assert_eq!(ev[9], event(1000, 1000, TouchKind::Move));
}

#[test]
fn average_rounds_down() {
    let mut f = TouchFilter::new(None);
    let ev = feed(&mut f, &[(1000, 1000), (1000, 1000), (1000, 1000), (1001, 1002), (1001, 1002)]);
    assert_eq!(ev[4], event(1000, 1000, TouchKind::Start));
}

#[test]
fn calibrated_filter_reports_mapped_average() {
    // screen = raw / 4 + 10 on x, raw / 2 on y
    let cal = CalibrationData::from_coefficients(1, 0, 40, 0, 2, 0, 4).unwrap();
    let mut f = TouchFilter::new(Some(cal));
    assert!(f.calibrated());
    let ev = feed(&mut f, &[(1000, 2000); 5]);
    assert_eq!(ev[4], event(260, 1000, TouchKind::Start));
}

struct Scripted {
    samples: Vec<Result<(u16, u16), u8>>,
}

impl Transport for Scripted {
    type Error = u8;

    fn read_xy(&mut self) -> Result<(u16, u16), u8> {
        self.samples.remove(0)
    }
}

#[test]
fn driver_reads_through_transport_and_hands_on_errors() {
    let mut script: Vec<Result<(u16, u16), u8>> = vec![Ok((500, 600)); 4];
    script.push(Err(7));
    script.push(Ok((500, 600)));
    let mut touch = Xpt2046::new(Scripted { samples: script }, None);
    assert!(!touch.calibrated());
    for _ in 0..4 {
        assert_eq!(touch.get_touch_event(), Ok(None));
    }
    assert_eq!(touch.get_touch_event(), Err(7));
    assert_eq!(
        touch.get_touch_event(),
        Ok(Some(TouchEvent { point: Point::new(500, 600), kind: TouchKind::Start }))
    );
}

#[test]
fn driver_calibration_can_be_replaced() {
    let mut touch = Xpt2046::new(Scripted { samples: vec![] }, None);
    touch.set_calibration(Some(CalibrationData::default()));
    assert!(touch.calibrated());
    assert_eq!(touch.filter().calibration(), Some(CalibrationData::default()));
}
