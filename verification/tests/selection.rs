use flipdigit::selector::{BinaryDigitSelector, DigitSelector, SelectorPulse};
use flipdigit::HwError;

#[test]
fn one_hot_strobe_picks_the_digit_line() {
    let sel = DigitSelector::new(4);
    assert_eq!(sel.strobe(0, 100), Ok(SelectorPulse { line: 0, hold_ms: 100 }));
    assert_eq!(sel.strobe(3, 100), Ok(SelectorPulse { line: 3, hold_ms: 100 }));
    assert_eq!(sel.strobe(2, 25), Ok(SelectorPulse { line: 2, hold_ms: 25 }));
}

#[test]
fn one_hot_strobe_out_of_bounds_fails() {
    let sel = DigitSelector::new(4);
    assert_eq!(sel.strobe(4, 100), Err(HwError::DoesNotExist));
    assert_eq!(sel.strobe(17, 100), Err(HwError::DoesNotExist));
}

#[test]
fn binary_strobe_encodes_the_address() {
    let sel = BinaryDigitSelector::new(3);
    let pulse = sel.strobe(5, 50).unwrap();
    // 5 = 0b101, least-significant address line first.
    assert_eq!(pulse.address, vec![true, false, true]);
    assert_eq!(pulse.hold_ms, 50);
    let pulse = sel.strobe(2, 50).unwrap();
    assert_eq!(pulse.address, vec![false, true, false]);
}

#[test]
fn binary_strobe_covers_the_full_range() {
    let sel = BinaryDigitSelector::new(2);
    for digit in 0..4 {
        let pulse = sel.strobe(digit, 10).unwrap();
        assert_eq!(pulse.address.len(), 2);
        assert_eq!(pulse.address[0], digit & 1 == 1);
        assert_eq!(pulse.address[1], digit & 2 == 2);
    }
}

#[test]
fn binary_strobe_out_of_bounds_fails() {
    let sel = BinaryDigitSelector::new(2);
    assert_eq!(sel.strobe(4, 10), Err(HwError::DoesNotExist));
    assert_eq!(sel.strobe(100, 10), Err(HwError::DoesNotExist));
}
