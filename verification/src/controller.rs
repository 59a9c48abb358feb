//! The digit-controller contract: per-slot remembered patterns, the
//! change-diffing rule that decides which coils to pulse, and the laws that
//! hold of that rule.
//!
//! A controller owns one remembered pattern per digit slot. A slot starts
//! `None` ("never yet written": the hardware state is unknown, so the first
//! render must drive every segment), and holds `Some(p)` afterwards, meaning
//! the physical segments of that slot match `p`.

use vstd::prelude::*;
use crate::HwError;
use crate::pattern::SegmentPattern;
use crate::pattern::encoded;
use crate::pattern::valid_number;
use crate::pattern::encode;

verus! {

/// What one segment's coil lines receive during an update: a pulse toward a
/// lit state, or idle (both coils off).
#[derive(Clone, Copy, Debug, PartialEq, Eq, Structural)]
pub enum SegmentAction {
    /// Pulse the segment toward lit state `on` (energize exactly one coil).
    Drive(bool),
    /// Leave both coils de-energized; the bistable segment keeps its state.
    Release,
}

/// Whether rendering `new` into a slot changes anything: an unwritten slot
/// always counts as changed, a written one iff the pattern differs.
pub open spec fn slot_changed(slot: Option<SegmentPattern>, new: SegmentPattern) -> bool {
    slot != Some(new)
}

/// The energy-saving diff rule: what segment `i`'s coils receive when `new`
/// is rendered into a slot. On a first write every segment is driven (a coil
/// cannot be assumed off); afterwards a coil is pulsed only on a state
/// transition, and an unchanged segment is released.
pub open spec fn segment_action(
    slot: Option<SegmentPattern>,
    new: SegmentPattern,
    i: int,
) -> SegmentAction {
    match slot {
        Option::None => SegmentAction::Drive(new.seg(i)),
        Option::Some(old) => if old.seg(i) != new.seg(i) {
            SegmentAction::Drive(new.seg(i))
        } else {
            SegmentAction::Release
        },
    }
}

/// The remembered-pattern state machine shared by every drive back end:
/// `update` diffs a new pattern against a slot's remembered one, records the
/// new pattern, and reports whether anything changed; indexes outside the
/// configured digit count fail with `DoesNotExist` and commit nothing.
pub trait DigitController: Sized {
    /// The remembered pattern of each digit slot, `None` while unwritten.
    spec fn slots(&self) -> Seq<Option<SegmentPattern>>;

    /// Internal well-formedness, established by construction and preserved
    /// by every method.
    spec fn wf(&self) -> bool;

    /// Number of configured digit slots.
    fn digit_count(&self) -> (r: usize)
        requires
            self.wf(),
        ensures
            r == self.slots().len(),
    ;

    /// The remembered pattern of slot `digit`.
    fn slot(&self, digit: usize) -> (r: Option<SegmentPattern>)
        requires
            self.wf(),
            digit < self.slots().len(),
        ensures
            r == self.slots()[digit as int],
    ;

    /// Renders `new_state` into slot `digit`: pulses exactly the segments
    /// whose state must flip, records the pattern, and reports whether any
    /// segment changed. Fails with `DoesNotExist`, committing nothing, if
    /// `digit` is outside the configured count.
    fn update(&mut self, digit: usize, new_state: SegmentPattern) -> (r: Result<bool, HwError>)
        requires
            old(self).wf(),
        ensures
            final(self).wf(),
            digit < old(self).slots().len() ==> r == Ok::<bool, HwError>(
                slot_changed(old(self).slots()[digit as int], new_state),
            ),
            digit < old(self).slots().len() ==> final(self).slots() == old(self).slots().update(
                digit as int,
                Some(new_state),
            ),
            digit >= old(self).slots().len() ==> r == Err::<bool, HwError>(HwError::DoesNotExist),
            digit >= old(self).slots().len() ==> *final(self) == *old(self),
    ;

    /// De-energizes every drive line (idle) without altering any remembered
    /// pattern: the display keeps its optical state.
    fn clear_pins(&mut self)
        requires
            old(self).wf(),
        ensures
            final(self).wf(),
            final(self).slots() == old(self).slots(),
    ;

    /// Renders a digit value (or the blank sentinel `None`): encodes it and
    /// updates slot `digit` with the resulting pattern. A value outside
    /// 0..=9 fails with `OutOfRange` before any slot is touched.
    fn display_number(&mut self, digit: usize, number: Option<usize>) -> (r: Result<
        bool,
        HwError,
    >)
        requires
            old(self).wf(),
        ensures
            final(self).wf(),
            !valid_number(number) ==> r == Err::<bool, HwError>(HwError::OutOfRange)
                && *final(self) == *old(self),
            valid_number(number) && digit >= old(self).slots().len() ==> r == Err::<
                bool,
                HwError,
            >(HwError::DoesNotExist) && *final(self) == *old(self),
            valid_number(number) && digit < old(self).slots().len() ==> r == Ok::<
                bool,
                HwError,
            >(slot_changed(old(self).slots()[digit as int], encoded(number)))
                && final(self).slots() == old(self).slots().update(
                digit as int,
                Some(encoded(number)),
            ),
    {
        match encode(number) {
            Ok(pattern) => self.update(digit, pattern),
            Err(e) => Err(e),
        }
    }
}

/// Law (first write): rendering any pattern into an unwritten slot reports a
/// change and drives every segment explicitly, with no reliance on assumed
/// prior state.
pub proof fn lemma_first_update_drives_all(p: SegmentPattern)
    ensures
        slot_changed(None::<SegmentPattern>, p),
        forall|i: int|
            segment_action(None::<SegmentPattern>, p, i) == SegmentAction::Drive(p.seg(i)),
{
}

/// Law (idempotence): after a pattern has been rendered into a slot,
/// rendering the same pattern again reports no change and releases every
/// segment — no coil is pulsed twice for one state. The first of the two
/// renders reports a change whenever the slot did not already hold the
/// pattern.
pub proof fn lemma_update_idempotent(
    slots: Seq<Option<SegmentPattern>>,
    d: int,
    p: SegmentPattern,
)
    requires
        0 <= d < slots.len(),
    ensures
        slots[d] != Some(p) ==> slot_changed(slots[d], p),
        !slot_changed(slots.update(d, Some(p))[d], p),
        forall|i: int|
            segment_action(slots.update(d, Some(p))[d], p, i) == SegmentAction::Release,
{
}

/// Law (diff correctness): rendering `new_p` over a remembered `old_p`
/// drives exactly the segments where the two patterns differ, each to its
/// new state, and releases all others; and a change is reported precisely
/// when some segment differs.
pub proof fn lemma_diff_exact(old_p: SegmentPattern, new_p: SegmentPattern)
    ensures
        forall|i: int|
            segment_action(Some(old_p), new_p, i) == (if old_p.seg(i) != new_p.seg(i) {
                SegmentAction::Drive(new_p.seg(i))
            } else {
                SegmentAction::Release
            }),
        slot_changed(Some(old_p), new_p) == exists|i: int|
            0 <= i < 7 && old_p.seg(i) != new_p.seg(i),
{
    if slot_changed(Some(old_p), new_p) {
        assert(old_p != new_p);
        if old_p.a != new_p.a {
            assert(old_p.seg(0) != new_p.seg(0));
        } else if old_p.b != new_p.b {
            assert(old_p.seg(1) != new_p.seg(1));
        } else if old_p.c != new_p.c {
            assert(old_p.seg(2) != new_p.seg(2));
        } else if old_p.d != new_p.d {
            assert(old_p.seg(3) != new_p.seg(3));
        } else if old_p.e != new_p.e {
            assert(old_p.seg(4) != new_p.seg(4));
        } else if old_p.f != new_p.f {
            assert(old_p.seg(5) != new_p.seg(5));
        } else {
            assert(old_p.g != new_p.g);
            assert(old_p.seg(6) != new_p.seg(6));
        }
    } else {
        assert(forall|i: int| 0 <= i < 7 ==> old_p.seg(i) == new_p.seg(i));
    }
}

} // verus!
