//! Digit-selection multiplexing: which enable/address lines to pulse so
//! that the currently driven segment pattern becomes visible at exactly one
//! digit position.
//!
//! A strobe is temporal (raise, hold, lower), so the selector computes a
//! pulse plan and the application performs it with its own output lines and
//! blocking delay. For the binary-coded scheme the address lines must be
//! fully settled before the shared enable line is raised, else a neighboring
//! position flashes during the transition; the plan types record the
//! required order.

use vstd::prelude::*;
use crate::HwError;

verus! {

/// A planned one-hot strobe: raise the dedicated enable line of position
/// `line` high, hold it for `hold_ms` milliseconds, then lower it. No other
/// enable line moves.
#[derive(Clone, Copy, Debug, PartialEq, Eq, Structural)]
pub struct SelectorPulse {
    pub line: usize,
    pub hold_ms: u16,
}

/// One-hot digit selector: one dedicated enable line per digit position.
pub struct DigitSelector {
    digit_count: usize,
}

impl DigitSelector {
    /// Number of digit positions (and enable lines) this selector owns.
    pub closed spec fn count(&self) -> usize {
        self.digit_count
    }

    /// Builds a selector for a unit with `digit_count` positions, one
    /// dedicated enable line each, owned exclusively by this selector.
    pub fn new(digit_count: usize) -> (r: Self)
        ensures
            r.count() == digit_count,
    {
        DigitSelector { digit_count }
    }

    /// Plans the strobe that makes position `digit` visible: its enable
    /// line, raised for `hold_ms`. Fails with `DoesNotExist` if `digit` is
    /// outside the configured count; no line moves on error.
    pub fn strobe(&self, digit: usize, hold_ms: u16) -> (r: Result<SelectorPulse, HwError>)
        ensures
            digit < self.count() ==> r == Ok::<SelectorPulse, HwError>(
                SelectorPulse { line: digit, hold_ms },
            ),
            digit >= self.count() ==> r == Err::<SelectorPulse, HwError>(HwError::DoesNotExist),
    {
        if digit >= self.digit_count {
            return Err(HwError::DoesNotExist);
        }
        Ok(SelectorPulse { line: digit, hold_ms })
    }
}

/// Whether address bit `i` of `digit` is high in the binary-coded scheme.
pub open spec fn addr_bit(digit: usize, i: int) -> bool {
    (digit >> i) & 1 == 1
}

/// A planned binary-coded strobe, to be performed in this order: first
/// settle every address line to its level in `address` (bit 0 first), then
/// raise the shared enable line, hold it for `hold_ms` milliseconds, then
/// lower it. Raising enable before the address settles would flash the
/// wrong position.
#[derive(Debug, PartialEq, Eq)]
pub struct BinaryPulse {
    pub address: Vec<bool>,
    pub hold_ms: u16,
}

/// Binary-coded digit selector: `k` address lines encode up to `2^k` digit
/// positions, with one shared enable line.
pub struct BinaryDigitSelector {
    address_lines: usize,
}

impl BinaryDigitSelector {
    /// Number of address lines.
    pub closed spec fn lines(&self) -> usize {
        self.address_lines
    }

    /// The selector addresses `2^k` positions with `k` address lines.
    pub open spec fn capacity(&self) -> usize {
        1usize << self.lines()
    }

    /// Builds a selector over `address_lines` binary address lines plus a
    /// shared enable line, all owned exclusively by this selector. More
    /// than 16 address lines would exceed any physical unit.
    pub fn new(address_lines: usize) -> (r: Self)
        requires
            address_lines <= 16,
        ensures
            r.lines() == address_lines,
    {
        BinaryDigitSelector { address_lines }
    }

    /// Plans the strobe that makes position `digit` visible: the binary
    /// address of `digit` on the address lines, then the shared enable line
    /// raised for `hold_ms`. Fails with `DoesNotExist` if `digit` is beyond
    /// the addressable range; no line moves on error.
    pub fn strobe(&self, digit: usize, hold_ms: u16) -> (r: Result<BinaryPulse, HwError>)
        requires
            self.lines() <= 16,
        ensures
            digit < self.capacity() ==> (r matches Ok(p) && p.address@.len() == self.lines()
                && p.hold_ms == hold_ms && forall|i: int|
                0 <= i < self.lines() ==> p.address@[i] == addr_bit(digit, i)),
            digit >= self.capacity() ==> r == Err::<BinaryPulse, HwError>(HwError::DoesNotExist),
    {
        let capacity: usize = 1usize << self.address_lines;
        if digit >= capacity {
            return Err(HwError::DoesNotExist);
        }
        let mut address: Vec<bool> = Vec::new();
        let mut i: usize = 0;
        while i < self.address_lines
            invariant
                i <= self.address_lines,
                self.address_lines <= 16,
                address@.len() == i,
                forall|j: int| 0 <= j < i ==> address@[j] == addr_bit(digit, j),
            decreases self.address_lines - i,
        {
            address.push((digit >> i) & 1 == 1);
            i += 1;
        }
        Ok(BinaryPulse { address, hold_ms })
    }
}

} // verus!
