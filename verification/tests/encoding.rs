use flipdigit::pattern::{encode, SegmentPattern};
use flipdigit::HwError;

fn pat(bits: [bool; 7]) -> SegmentPattern {
    SegmentPattern::from_segments(bits[0], bits[1], bits[2], bits[3], bits[4], bits[5], bits[6])
}

#[test]
fn encode_digit_table() {
    let expected: [[bool; 7]; 10] = [
        [true, true, true, true, true, true, false],
        [false, true, true, false, false, false, false],
        [true, true, false, true, true, false, true],
        [true, true, true, true, false, false, true],
        [false, true, true, false, false, true, true],
        [true, false, true, true, false, true, true],
        [true, false, true, true, true, true, true],
        [true, true, true, false, false, false, false],
        [true, true, true, true, true, true, true],
        [true, true, true, true, false, true, true],
    ];
    for value in 0..10 {
        assert_eq!(encode(Some(value)), Ok(pat(expected[value])));
    }
}

#[test]
fn encode_blank_is_all_off() {
    assert_eq!(
        encode(None),
        Ok(pat([false, false, false, false, false, false, false]))
    );
}

#[test]
fn encode_out_of_range() {
    assert_eq!(encode(Some(10)), Err(HwError::OutOfRange));
    assert_eq!(encode(Some(11)), Err(HwError::OutOfRange));
    assert_eq!(encode(Some(usize::MAX)), Err(HwError::OutOfRange));
}

#[test]
fn pattern_get_matches_fields() {
    let p = pat([true, false, true, false, true, false, true]);
    assert!(p.get(0));
    assert!(!p.get(1));
    assert!(p.get(2));
    assert!(!p.get(3));
    assert!(p.get(4));
    assert!(!p.get(5));
    assert!(p.get(6));
}
