//! Serial-expander drive back end: the same set/clear coil semantics mapped
//! onto bit positions of a 16-bit shift register instead of fourteen
//! dedicated lines.
//!
//! `update` computes a pulse mask: bit `k` set means "pulse register output
//! `k` high for one strobe window, then return it low". The bit-position
//! table is a wiring-time constant of one physical build. Serializing the
//! mask over the data/clock/enable lines is the application's work; this
//! back end only decides which bits must pulse.

use vstd::prelude::*;
use crate::HwError;
use crate::pattern::SegmentPattern;
use crate::pattern::SEGMENTS;
use crate::controller::DigitController;
use crate::controller::SegmentAction;
use crate::controller::segment_action;
use crate::controller::slot_changed;
use crate::controller::lemma_diff_exact;

verus! {

/// Register bit that pulses segment `i`'s set coil (wiring-time table).
pub open spec fn set_bit(i: int) -> u16 {
    if i == 0 {
        13
    } else if i == 1 {
        9
    } else if i == 2 {
        4
    } else if i == 3 {
        2
    } else if i == 4 {
        5
    } else if i == 5 {
        10
    } else {
        12
    }
}

/// Register bit that pulses segment `i`'s clear coil (wiring-time table).
pub open spec fn clr_bit(i: int) -> u16 {
    if i == 0 {
        15
    } else if i == 1 {
        11
    } else if i == 2 {
        6
    } else if i == 3 {
        1
    } else if i == 4 {
        3
    } else if i == 5 {
        7
    } else {
        14
    }
}

/// The register bit a drive of segment `i` toward state `on` must pulse:
/// its set bit to flip the segment on, its clear bit to flip it off.
pub open spec fn seg_bit(i: int, on: bool) -> u16 {
    if on {
        set_bit(i)
    } else {
        clr_bit(i)
    }
}

/// Segment `i`'s contribution to the pulse mask: its drive bit when the
/// diff rule pulses it, nothing when the segment is left idle.
pub open spec fn contribution(slot: Option<SegmentPattern>, new: SegmentPattern, i: int) -> u16 {
    match segment_action(slot, new, i) {
        SegmentAction::Drive(on) => 1u16 << seg_bit(i, on),
        SegmentAction::Release => 0u16,
    }
}

/// The pulse mask accumulated over the first `k` segments.
pub open spec fn mask_upto(slot: Option<SegmentPattern>, new: SegmentPattern, k: int) -> u16
    decreases k,
{
    if k <= 0 {
        0u16
    } else {
        mask_upto(slot, new, k - 1) | contribution(slot, new, k - 1)
    }
}

/// The full pulse mask for rendering `new` into a slot: one bit per segment
/// whose state must flip, at that segment's set or clear position.
pub open spec fn pulse_mask(slot: Option<SegmentPattern>, new: SegmentPattern) -> u16 {
    mask_upto(slot, new, SEGMENTS as int)
}

/// Executable bit-position table.
fn seg_bit_exec(i: usize, on: bool) -> (b: u16)
    requires
        i < SEGMENTS,
    ensures
        b == seg_bit(i as int, on),
        b < 16,
{
    if on {
        if i == 0 {
            13
        } else if i == 1 {
            9
        } else if i == 2 {
            4
        } else if i == 3 {
            2
        } else if i == 4 {
            5
        } else if i == 5 {
            10
        } else {
            12
        }
    } else {
        if i == 0 {
            15
        } else if i == 1 {
            11
        } else if i == 2 {
            6
        } else if i == 3 {
            1
        } else if i == 4 {
            3
        } else if i == 5 {
            7
        } else {
            14
        }
    }
}

proof fn lemma_or_nonzero(a: u16, b: u16)
    requires
        a != 0 || b != 0,
    ensures
        (a | b) != 0,
{
    assert(a != 0 || b != 0 ==> (a | b) != 0) by (bit_vector);
}

proof fn lemma_shift_nonzero(k: u16)
    requires
        k < 16,
    ensures
        (1u16 << k) != 0,
{
    assert(k < 16 ==> (1u16 << k) != 0) by (bit_vector);
}

/// The accumulated mask is non-zero exactly when some already-visited
/// segment contributes a pulse bit.
proof fn lemma_mask_upto_nonzero(slot: Option<SegmentPattern>, new: SegmentPattern, k: int)
    requires
        0 <= k <= SEGMENTS,
    ensures
        (mask_upto(slot, new, k) != 0) == exists|j: int|
            0 <= j < k && contribution(slot, new, j) != 0,
    decreases k,
{
    if k > 0 {
        lemma_mask_upto_nonzero(slot, new, k - 1);
        let prefix = mask_upto(slot, new, k - 1);
        let last = contribution(slot, new, k - 1);
        if prefix != 0 || last != 0 {
            lemma_or_nonzero(prefix, last);
            if last != 0 {
                assert(contribution(slot, new, k - 1) != 0);
            }
        } else {
            assert((0u16 | 0u16) == 0u16) by (bit_vector);
            assert(forall|j: int| 0 <= j < k ==> contribution(slot, new, j) == 0) by {
                assert(forall|j: int|
                    0 <= j < k - 1 ==> contribution(slot, new, j) == 0);
            }
        }
    }
}

/// Law: the pulse mask is non-zero exactly when the render changes
/// something — an unwritten slot, or a pattern that differs somewhere. In
/// particular, rendering the same pattern twice produces a zero mask the
/// second time.
pub proof fn lemma_mask_nonzero_iff_changed(slot: Option<SegmentPattern>, new: SegmentPattern)
    ensures
        (pulse_mask(slot, new) != 0) == slot_changed(slot, new),
        pulse_mask(Some(new), new) == 0,
{
    lemma_mask_upto_nonzero(slot, new, SEGMENTS as int);
    match slot {
        Option::None => {
            lemma_shift_nonzero(seg_bit(0, new.seg(0)));
            assert(contribution(slot, new, 0) != 0);
        },
        Option::Some(old) => {
            lemma_diff_exact(old, new);
            if slot_changed(slot, new) {
                let j = choose|j: int| 0 <= j < 7 && old.seg(j) != new.seg(j);
                lemma_shift_nonzero(seg_bit(j, new.seg(j)));
                assert(contribution(slot, new, j) != 0);
            } else {
                assert(forall|j: int|
                    0 <= j < 7 ==> segment_action(slot, new, j) == SegmentAction::Release);
            }
        },
    }
    lemma_mask_upto_nonzero(Some(new), new, SEGMENTS as int);
    assert(forall|j: int|
        0 <= j < 7 ==> segment_action(Some(new), new, j) == SegmentAction::Release);
}

/// Drive back end over a bit-banged shift register: it owns no per-segment
/// lines, only the remembered pattern of each digit slot; each render is a
/// pulse mask handed back to the caller.
pub struct DigitControllerBitBangedExpander {
    state: Vec<Option<SegmentPattern>>,
}

impl DigitControllerBitBangedExpander {
    /// Builds a controller for a unit with `digit_count` digit positions.
    /// Every slot starts unwritten.
    pub fn new(digit_count: usize) -> (r: Self)
        ensures
            r.wf(),
            r.slots().len() == digit_count,
            forall|i: int| 0 <= i < digit_count ==> r.slots()[i] is None,
    {
        let mut state: Vec<Option<SegmentPattern>> = Vec::new();
        let mut i: usize = 0;
        while i < digit_count
            invariant
                i <= digit_count,
                state@.len() == i,
                forall|j: int| 0 <= j < i ==> state@[j] is None,
            decreases digit_count - i,
        {
            state.push(None);
            i += 1;
        }
        DigitControllerBitBangedExpander { state }
    }

    /// Renders `new_state` into slot `digit` and returns the register pulse
    /// mask: exactly the bits whose output must be pulsed high for one
    /// strobe window, per the diff rule and the wiring table. Fails with
    /// `DoesNotExist`, committing nothing, if `digit` is outside the
    /// configured count.
    pub fn update_mask(&mut self, digit: usize, new_state: SegmentPattern) -> (r: Result<
        u16,
        HwError,
    >)
        ensures
            digit < old(self).slots().len() ==> r == Ok::<u16, HwError>(
                pulse_mask(old(self).slots()[digit as int], new_state),
            ),
            digit < old(self).slots().len() ==> final(self).slots() == old(self).slots().update(
                digit as int,
                Some(new_state),
            ),
            digit >= old(self).slots().len() ==> r == Err::<u16, HwError>(HwError::DoesNotExist),
            digit >= old(self).slots().len() ==> *final(self) == *old(self),
    {
        if digit >= self.state.len() {
            return Err(HwError::DoesNotExist);
        }
        let ghost old_slots = self.state@;
        let slot = self.state[digit];
        let mut reg_state: u16 = 0;
        let mut i: usize = 0;
        while i < SEGMENTS
            invariant
                i <= SEGMENTS,
                reg_state == mask_upto(slot, new_state, i as int),
            decreases SEGMENTS - i,
        {
            let on = new_state.get(i);
            let must_pulse = match slot {
                None => true,
                Some(old_state) => old_state.get(i) != on,
            };
            if must_pulse {
                let b = seg_bit_exec(i, on);
                reg_state = reg_state | (1u16 << b);
                proof {
                    assert(contribution(slot, new_state, i as int) == 1u16 << seg_bit(
                        i as int,
                        on,
                    ));
                }
            } else {
                proof {
                    assert(contribution(slot, new_state, i as int) == 0u16);
                    assert(reg_state | 0u16 == reg_state) by (bit_vector);
                }
            }
            i += 1;
        }
        self.state.set(digit, Some(new_state));
        proof {
            assert(self.state@ =~= old_slots.update(digit as int, Some(new_state)));
        }
        Ok(reg_state)
    }
}

impl DigitController for DigitControllerBitBangedExpander {
    closed spec fn slots(&self) -> Seq<Option<SegmentPattern>> {
        self.state@
    }

    closed spec fn wf(&self) -> bool {
        true
    }

    fn digit_count(&self) -> (r: usize) {
        self.state.len()
    }

    fn slot(&self, digit: usize) -> (r: Option<SegmentPattern>) {
        self.state[digit]
    }

    fn update(&mut self, digit: usize, new_state: SegmentPattern) -> (r: Result<bool, HwError>) {
        let ghost slot = self.slots()[digit as int];
        match self.update_mask(digit, new_state) {
            Ok(mask) => {
                proof {
                    lemma_mask_nonzero_iff_changed(slot, new_state);
                }
                Ok(mask != 0)
            },
            Err(e) => Err(e),
        }
    }

    /// The expander owns no persistent segment lines: every register output
    /// is already a pulse that the application returns low after the strobe
    /// window, so there is nothing to de-energize here.
    fn clear_pins(&mut self) {
    }
}

} // verus!
