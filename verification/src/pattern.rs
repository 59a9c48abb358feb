//! Seven-segment patterns and the digit-value encoding table.

use vstd::prelude::*;
use crate::HwError;

verus! {

/// Number of segments in one digit position (the seven-segment convention).
pub const SEGMENTS: usize = 7;

/// An ordered set of seven booleans, one per segment A-G, meaning
/// "segment is lit". Produced by the encoding table; segment layout:
///
/// ```text
///   *  A/0  *
///  F/5     B/1
///   *  G/6  *
///  E/4     C/2
///   *  D/3  *
/// ```
#[derive(Clone, Copy, Debug, PartialEq, Eq, Structural)]
pub struct SegmentPattern {
    pub a: bool,
    pub b: bool,
    pub c: bool,
    pub d: bool,
    pub e: bool,
    pub f: bool,
    pub g: bool,
}

impl SegmentPattern {
    /// The lit state of segment `i` (0 = A .. 6 = G).
    pub open spec fn seg(&self, i: int) -> bool {
        if i == 0 {
            self.a
        } else if i == 1 {
            self.b
        } else if i == 2 {
            self.c
        } else if i == 3 {
            self.d
        } else if i == 4 {
            self.e
        } else if i == 5 {
            self.f
        } else {
            self.g
        }
    }

    /// Executable access to segment `i`.
    pub fn get(&self, i: usize) -> (r: bool)
        requires
            i < SEGMENTS,
        ensures
            r == self.seg(i as int),
    {
        if i == 0 {
            self.a
        } else if i == 1 {
            self.b
        } else if i == 2 {
            self.c
        } else if i == 3 {
            self.d
        } else if i == 4 {
            self.e
        } else if i == 5 {
            self.f
        } else {
            self.g
        }
    }

    /// Builds a pattern from its seven segment states, A first.
    pub fn from_segments(a: bool, b: bool, c: bool, d: bool, e: bool, f: bool, g: bool) -> (r:
        Self)
        ensures
            r == (SegmentPattern { a, b, c, d, e, f, g }),
    {
        SegmentPattern { a, b, c, d, e, f, g }
    }
}

/// The all-off pattern, rendered for a blanked digit position.
pub open spec fn blank_pattern() -> SegmentPattern {
    SegmentPattern {
        a: false,
        b: false,
        c: false,
        d: false,
        e: false,
        f: false,
        g: false,
    }
}

/// The fixed encoding table: the standard seven-segment shape of each
/// decimal digit 0..=9.
pub open spec fn digit_pattern(n: int) -> SegmentPattern {
    if n == 0 {
        SegmentPattern { a: true, b: true, c: true, d: true, e: true, f: true, g: false }
    } else if n == 1 {
        SegmentPattern { a: false, b: true, c: true, d: false, e: false, f: false, g: false }
    } else if n == 2 {
        SegmentPattern { a: true, b: true, c: false, d: true, e: true, f: false, g: true }
    } else if n == 3 {
        SegmentPattern { a: true, b: true, c: true, d: true, e: false, f: false, g: true }
    } else if n == 4 {
        SegmentPattern { a: false, b: true, c: true, d: false, e: false, f: true, g: true }
    } else if n == 5 {
        SegmentPattern { a: true, b: false, c: true, d: true, e: false, f: true, g: true }
    } else if n == 6 {
        SegmentPattern { a: true, b: false, c: true, d: true, e: true, f: true, g: true }
    } else if n == 7 {
        SegmentPattern { a: true, b: true, c: true, d: false, e: false, f: false, g: false }
    } else if n == 8 {
        SegmentPattern { a: true, b: true, c: true, d: true, e: true, f: true, g: true }
    } else {
        SegmentPattern { a: true, b: true, c: true, d: true, e: false, f: true, g: true }
    }
}

/// Whether a requested digit value is inside the encoding table's domain:
/// a decimal digit, or the blank sentinel.
pub open spec fn valid_number(number: Option<usize>) -> bool {
    match number {
        Option::None => true,
        Option::Some(n) => n <= 9,
    }
}

/// The pattern that a valid digit value renders as: the table entry for a
/// decimal digit, all-off for the blank sentinel.
pub open spec fn encoded(number: Option<usize>) -> SegmentPattern {
    match number {
        Option::None => blank_pattern(),
        Option::Some(n) => digit_pattern(n as int),
    }
}

/// Maps a digit value (or the blank sentinel `None`) to its segment pattern.
/// Values outside 0..=9 are an input contract violation and fail with
/// `OutOfRange`.
pub fn encode(number: Option<usize>) -> (r: Result<SegmentPattern, HwError>)
    ensures
        valid_number(number) ==> r == Ok::<SegmentPattern, HwError>(encoded(number)),
        !valid_number(number) ==> r == Err::<SegmentPattern, HwError>(HwError::OutOfRange),
{
    match number {
        Option::None => Ok(
            SegmentPattern {
                a: false,
                b: false,
                c: false,
                d: false,
                e: false,
                f: false,
                g: false,
            },
        ),
        Option::Some(0) => Ok(
            SegmentPattern { a: true, b: true, c: true, d: true, e: true, f: true, g: false },
        ),
        Option::Some(1) => Ok(
            SegmentPattern { a: false, b: true, c: true, d: false, e: false, f: false, g: false },
        ),
        Option::Some(2) => Ok(
            SegmentPattern { a: true, b: true, c: false, d: true, e: true, f: false, g: true },
        ),
        Option::Some(3) => Ok(
            SegmentPattern { a: true, b: true, c: true, d: true, e: false, f: false, g: true },
        ),
        Option::Some(4) => Ok(
            SegmentPattern { a: false, b: true, c: true, d: false, e: false, f: true, g: true },
        ),
        Option::Some(5) => Ok(
            SegmentPattern { a: true, b: false, c: true, d: true, e: false, f: true, g: true },
        ),
        Option::Some(6) => Ok(
            SegmentPattern { a: true, b: false, c: true, d: true, e: true, f: true, g: true },
        ),
        Option::Some(7) => Ok(
            SegmentPattern { a: true, b: true, c: true, d: false, e: false, f: false, g: false },
        ),
        Option::Some(8) => Ok(
            SegmentPattern { a: true, b: true, c: true, d: true, e: true, f: true, g: true },
        ),
        Option::Some(9) => Ok(
            SegmentPattern { a: true, b: true, c: true, d: true, e: false, f: true, g: true },
        ),
        Option::Some(_) => Err(HwError::OutOfRange),
    }
}

} // verus!
