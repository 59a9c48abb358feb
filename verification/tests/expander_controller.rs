use flipdigit::controller::DigitController;
use flipdigit::expander::DigitControllerBitBangedExpander;
use flipdigit::pattern::SegmentPattern;
use flipdigit::HwError;

fn pat(bits: [bool; 7]) -> SegmentPattern {
    SegmentPattern::from_segments(bits[0], bits[1], bits[2], bits[3], bits[4], bits[5], bits[6])
}

// Wiring table: set bits (A..G) = 13, 9, 4, 2, 5, 10, 12;
// clear bits (A..G) = 15, 11, 6, 1, 3, 7, 14.
const SET_BITS: [u16; 7] = [13, 9, 4, 2, 5, 10, 12];
const CLR_BITS: [u16; 7] = [15, 11, 6, 1, 3, 7, 14];

fn full_drive_mask(p: SegmentPattern) -> u16 {
    let mut mask = 0u16;
    for i in 0..7 {
        let bit = if p.get(i) { SET_BITS[i] } else { CLR_BITS[i] };
        mask |= 1 << bit;
    }
    mask
}

#[test]
fn first_update_pulses_every_segment_bit() {
    let mut c = DigitControllerBitBangedExpander::new(4);
    let seven = pat([true, true, true, false, false, false, false]);
    // A, B, C set; D..G cleared.
    let expected = (1 << 13) | (1 << 9) | (1 << 4) | (1 << 1) | (1 << 3) | (1 << 7) | (1 << 14);
    assert_eq!(c.update_mask(0, seven), Ok(expected));
    assert_eq!(full_drive_mask(seven), expected);
}

#[test]
fn repeated_render_gives_zero_mask() {
    let mut c = DigitControllerBitBangedExpander::new(4);
    let two = pat([true, true, false, true, true, false, true]);
    let first = c.update_mask(1, two).unwrap();
    assert_eq!(first, full_drive_mask(two));
    assert_ne!(first, 0);
    assert_eq!(c.update_mask(1, two), Ok(0));
}

#[test]
fn mask_holds_exactly_the_changed_bits() {
    let mut c = DigitControllerBitBangedExpander::new(2);
    let seven = pat([true, true, true, false, false, false, false]);
    let one = pat([false, true, true, false, false, false, false]);
    c.update_mask(0, seven).unwrap();
    // Only segment A flips, from on to off: pulse its clear bit alone.
    assert_eq!(c.update_mask(0, one), Ok(1 << 15));
}

#[test]
fn update_mask_out_of_bounds_digit_fails() {
    let mut c = DigitControllerBitBangedExpander::new(4);
    let blank = pat([false; 7]);
    assert_eq!(c.update_mask(4, blank), Err(HwError::DoesNotExist));
}

#[test]
fn trait_update_reports_changed_from_mask() {
    let mut c = DigitControllerBitBangedExpander::new(3);
    let nine = pat([true, true, true, true, false, true, true]);
    assert_eq!(c.update(2, nine), Ok(true));
    assert_eq!(c.update(2, nine), Ok(false));
    assert_eq!(c.update(3, nine), Err(HwError::DoesNotExist));
}

#[test]
fn display_number_same_contract_as_direct() {
    let mut c = DigitControllerBitBangedExpander::new(3);
    assert_eq!(c.display_number(0, Some(10)), Err(HwError::OutOfRange));
    assert_eq!(c.display_number(3, Some(1)), Err(HwError::DoesNotExist));
    assert_eq!(c.display_number(0, Some(8)), Ok(true));
    assert_eq!(c.slot(0), Some(pat([true; 7])));
    assert_eq!(c.display_number(0, Some(8)), Ok(false));
}
