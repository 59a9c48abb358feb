use flipdigit::controller::DigitController;
use flipdigit::direct::DigitControllerDirect;
use flipdigit::pattern::SegmentPattern;
use flipdigit::segment::Segment;
use flipdigit::HwError;

fn controller(digits: usize) -> DigitControllerDirect {
    DigitControllerDirect::new(
        Segment::new(),
        Segment::new(),
        Segment::new(),
        Segment::new(),
        Segment::new(),
        Segment::new(),
        Segment::new(),
        digits,
    )
}

fn pat(bits: [bool; 7]) -> SegmentPattern {
    SegmentPattern::from_segments(bits[0], bits[1], bits[2], bits[3], bits[4], bits[5], bits[6])
}

#[test]
fn first_update_reports_changed_and_drives_every_segment() {
    let mut c = controller(4);
    let seven = pat([true, true, true, false, false, false, false]);
    assert_eq!(c.update(0, seven), Ok(true));
    // Every segment is driven explicitly: (on, !on) on its (set, clear) pair.
    for i in 0..7 {
        let on = seven.get(i);
        assert_eq!(c.segment_levels(i), (on, !on));
    }
}

#[test]
fn repeated_update_is_idle() {
    let mut c = controller(4);
    let five = pat([true, false, true, true, false, true, true]);
    assert_eq!(c.update(2, five), Ok(true));
    assert_eq!(c.update(2, five), Ok(false));
    // The second call releases every segment: no coil is pulsed twice.
    for i in 0..7 {
        assert_eq!(c.segment_levels(i), (false, false));
    }
}

#[test]
fn update_drives_exactly_the_difference() {
    let mut c = controller(4);
    let seven = pat([true, true, true, false, false, false, false]);
    let one = pat([false, true, true, false, false, false, false]);
    assert_eq!(c.update(0, seven), Ok(true));
    assert_eq!(c.update(0, one), Ok(true));
    // Only segment A differs (on -> off): its clear coil is pulsed.
    assert_eq!(c.segment_levels(0), (false, true));
    for i in 1..7 {
        assert_eq!(c.segment_levels(i), (false, false));
    }
}

#[test]
fn update_out_of_bounds_digit_fails() {
    let mut c = controller(4);
    let blank = pat([false; 7]);
    assert_eq!(c.update(4, blank), Err(HwError::DoesNotExist));
    assert_eq!(c.update(100, blank), Err(HwError::DoesNotExist));
}

#[test]
fn display_number_stores_encoded_pattern() {
    let mut c = controller(3);
    assert_eq!(c.display_number(1, Some(3)), Ok(true));
    assert_eq!(c.slot(1), Some(pat([true, true, true, true, false, false, true])));
    assert_eq!(c.slot(0), None);
    assert_eq!(c.slot(2), None);
}

#[test]
fn display_number_out_of_range_value_fails() {
    let mut c = controller(3);
    assert_eq!(c.display_number(0, Some(10)), Err(HwError::OutOfRange));
    // The slot is untouched by the failed call.
    assert_eq!(c.slot(0), None);
}

#[test]
fn display_number_out_of_bounds_digit_fails() {
    let mut c = controller(3);
    assert_eq!(c.display_number(3, Some(1)), Err(HwError::DoesNotExist));
}

#[test]
fn clear_pins_releases_without_forgetting() {
    let mut c = controller(2);
    let eight = pat([true, true, true, true, true, true, true]);
    assert_eq!(c.update(0, eight), Ok(true));
    c.clear_pins();
    for i in 0..7 {
        assert_eq!(c.segment_levels(i), (false, false));
    }
    // The remembered pattern survives, so re-rendering it changes nothing.
    assert_eq!(c.update(0, eight), Ok(false));
}

#[test]
fn digit_count_matches_construction() {
    let c = controller(4);
    assert_eq!(c.digit_count(), 4);
}

#[test]
fn segment_drive_and_release_levels() {
    let mut s = Segment::new();
    assert_eq!(s.levels(), (false, false));
    s.drive(true);
    assert_eq!(s.levels(), (true, false));
    s.drive(false);
    assert_eq!(s.levels(), (false, true));
    s.release();
    assert_eq!(s.levels(), (false, false));
}
