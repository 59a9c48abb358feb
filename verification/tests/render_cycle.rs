use flipdigit::controller::DigitController;
use flipdigit::direct::DigitControllerDirect;
use flipdigit::expander::DigitControllerBitBangedExpander;
use flipdigit::pattern::SegmentPattern;
use flipdigit::render::{digit_values, render_pass, RenderOp};
use flipdigit::segment::Segment;

fn controller(digits: usize) -> DigitControllerDirect {
    DigitControllerDirect::new(
        Segment::new(),
        Segment::new(),
        Segment::new(),
        Segment::new(),
        Segment::new(),
        Segment::new(),
        Segment::new(),
        digits,
    )
}

fn pat(bits: [bool; 7]) -> SegmentPattern {
    SegmentPattern::from_segments(bits[0], bits[1], bits[2], bits[3], bits[4], bits[5], bits[6])
}

fn strobed_digits(ops: &[RenderOp]) -> Vec<usize> {
    ops.iter()
        .filter_map(|op| match op {
            RenderOp::Strobe { digit, .. } => Some(*digit),
            _ => None,
        })
        .collect()
}

#[test]
fn leading_zeros_are_blanked() {
    assert_eq!(digit_values(5, 3), vec![Some(5), None, None]);
    assert_eq!(digit_values(7, 3), vec![Some(7), None, None]);
    assert_eq!(digit_values(123, 4), vec![Some(3), Some(2), Some(1), None]);
    assert_eq!(digit_values(120, 4), vec![Some(0), Some(2), Some(1), None]);
}

#[test]
fn position_zero_never_blanks() {
    assert_eq!(digit_values(0, 3), vec![Some(0), None, None]);
    assert_eq!(digit_values(0, 1), vec![Some(0)]);
}

#[test]
fn value_wider_than_unit_truncates_to_low_digits() {
    assert_eq!(digit_values(12345, 3), vec![Some(5), Some(4), Some(3)]);
}

#[test]
fn first_pass_strobes_every_position() {
    let mut c = controller(3);
    let ops = render_pass(&mut c, 7, 100);
    // Every slot was unwritten, so all three positions change and strobe.
    assert_eq!(strobed_digits(&ops), vec![0, 1, 2]);
    // Position 0 now remembers the shape of 7, the others the blank.
    assert_eq!(c.slot(0), Some(pat([true, true, true, false, false, false, false])));
    assert_eq!(c.slot(1), Some(pat([false; 7])));
    assert_eq!(c.slot(2), Some(pat([false; 7])));
    assert_eq!(ops.last(), Some(&RenderOp::ReleaseAll));
}

#[test]
fn second_pass_of_same_value_strobes_nothing() {
    let mut c = controller(3);
    render_pass(&mut c, 7, 100);
    let ops = render_pass(&mut c, 7, 100);
    assert_eq!(strobed_digits(&ops), Vec::<usize>::new());
    // Nothing changed, so every segment op is a release.
    for op in &ops {
        match op {
            RenderOp::Drive { .. } => panic!("no coil may be pulsed twice for one state"),
            _ => {}
        }
    }
}

#[test]
fn segment_writes_come_before_their_strobe() {
    let mut c = controller(3);
    let ops = render_pass(&mut c, 42, 100);
    for (k, op) in ops.iter().enumerate() {
        if let RenderOp::Strobe { digit, .. } = op {
            // All segment ops for this digit lie before its strobe...
            for (j, other) in ops.iter().enumerate() {
                let for_same = match other {
                    RenderOp::Drive { digit: d2, .. } => d2 == digit,
                    RenderOp::Release { digit: d2, .. } => d2 == digit,
                    _ => false,
                };
                if for_same {
                    assert!(j < k);
                }
            }
        }
    }
}

#[test]
fn changed_position_strobes_again() {
    let mut c = controller(2);
    render_pass(&mut c, 9, 100);
    let ops = render_pass(&mut c, 8, 100);
    // 9 -> 8 changes position 0 only; position 1 stays blank.
    assert_eq!(strobed_digits(&ops), vec![0]);
}

#[test]
fn render_pass_works_on_the_expander_back_end() {
    let mut c = DigitControllerBitBangedExpander::new(3);
    let ops = render_pass(&mut c, 7, 100);
    assert_eq!(strobed_digits(&ops), vec![0, 1, 2]);
    let ops = render_pass(&mut c, 7, 100);
    assert_eq!(strobed_digits(&ops), Vec::<usize>::new());
    assert_eq!(c.slot(0), Some(pat([true, true, true, false, false, false, false])));
}

#[test]
fn render_pass_hold_time_reaches_the_strobes() {
    let mut c = controller(1);
    let ops = render_pass(&mut c, 3, 250);
    match ops[7] {
        RenderOp::Strobe { digit, hold_ms } => {
            assert_eq!(digit, 0);
            assert_eq!(hold_ms, 250);
        }
        _ => panic!("the strobe follows the seven segment ops"),
    }
}
