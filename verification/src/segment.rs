//! One coil-actuated segment: the pair of drive lines (set, clear) that flip
//! it on or off.
//!
//! The hardware is bistable, so the driver's record of truth is the level it
//! last commanded on each line, not sensed state. A `Segment` holds exactly
//! those two commanded levels; the surrounding application mirrors them onto
//! the physical output lines it owns for this segment.

use vstd::prelude::*;

verus! {

/// The two drive lines of one latching segment, as last commanded.
///
/// Exclusivity: one `Segment` value stands for one physical (set-line,
/// clear-line) pair, owned by it alone; no other component commands these
/// lines.
#[derive(Clone, Copy, Debug, PartialEq, Eq, Structural)]
pub struct Segment {
    set_line: bool,
    clear_line: bool,
}

impl Segment {
    /// Commanded level of the set-coil line.
    pub closed spec fn set_level(&self) -> bool {
        self.set_line
    }

    /// Commanded level of the clear-coil line.
    pub closed spec fn clear_level(&self) -> bool {
        self.clear_line
    }

    /// The segment is being driven toward lit state `on`: exactly one of the
    /// two coils is energized, the one that flips the segment to `on`.
    pub open spec fn driven(&self, on: bool) -> bool {
        self.set_level() == on && self.clear_level() == !on
    }

    /// Safe idle state: both coils de-energized. The segment keeps its
    /// current optical state because it is bistable.
    pub open spec fn released(&self) -> bool {
        !self.set_level() && !self.clear_level()
    }

    /// A new segment starts released: both lines low.
    pub fn new() -> (s: Self)
        ensures
            s.released(),
    {
        Segment { set_line: false, clear_line: false }
    }

    /// Pulses the segment toward lit state `on`: the matching coil line goes
    /// high and the opposing line goes low together, so a half-pulsed pair
    /// never leaves the opposing coil energized.
    pub fn drive(&mut self, on: bool)
        ensures
            final(self).driven(on),
    {
        if on {
            self.set_line = true;
            self.clear_line = false;
        } else {
            self.set_line = false;
            self.clear_line = true;
        }
    }

    /// De-energizes both coils (idle). Does not change the segment's optical
    /// state.
    pub fn release(&mut self)
        ensures
            final(self).released(),
    {
        self.set_line = false;
        self.clear_line = false;
    }

    /// The commanded levels, (set-line, clear-line), for the application to
    /// mirror onto the physical pins.
    pub fn levels(&self) -> (r: (bool, bool))
        ensures
            r.0 == self.set_level(),
            r.1 == self.clear_level(),
    {
        (self.set_line, self.clear_line)
    }
}

} // verus!
