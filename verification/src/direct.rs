//! Direct-GPIO drive back end: one `Segment` (a set/clear coil line pair)
//! per segment position, shared across all digit slots through the
//! multiplexing selector.

use vstd::prelude::*;
use crate::HwError;
use crate::pattern::SegmentPattern;
use crate::pattern::SEGMENTS;
use crate::segment::Segment;
use crate::controller::DigitController;
use crate::controller::SegmentAction;
use crate::controller::segment_action;

verus! {

/// A segment's coil lines carry out an action when they hold exactly the
/// levels the action calls for: a drive energizes the one matching coil, a
/// release leaves both idle.
pub open spec fn action_applied(s: Segment, action: SegmentAction) -> bool {
    match action {
        SegmentAction::Drive(on) => s.driven(on),
        SegmentAction::Release => s.released(),
    }
}

/// Drive back end with dedicated coil line pairs: seven `Segment`s (A-G)
/// plus the remembered pattern of each digit slot.
pub struct DigitControllerDirect {
    segments: Vec<Segment>,
    state: Vec<Option<SegmentPattern>>,
}

impl DigitControllerDirect {
    /// The seven segment line pairs, A first.
    pub closed spec fn segs(&self) -> Seq<Segment> {
        self.segments@
    }

    /// Builds a controller from its seven segment line pairs (A-G) and the
    /// digit count of the physical unit. Every slot starts unwritten.
    pub fn new(
        a: Segment,
        b: Segment,
        c: Segment,
        d: Segment,
        e: Segment,
        f: Segment,
        g: Segment,
        digit_count: usize,
    ) -> (r: Self)
        ensures
            r.wf(),
            r.slots().len() == digit_count,
            forall|i: int| 0 <= i < digit_count ==> r.slots()[i] is None,
            r.segs() =~= seq![a, b, c, d, e, f, g],
    {
        let mut segments: Vec<Segment> = Vec::new();
        segments.push(a);
        segments.push(b);
        segments.push(c);
        segments.push(d);
        segments.push(e);
        segments.push(f);
        segments.push(g);
        let mut state: Vec<Option<SegmentPattern>> = Vec::new();
        let mut i: usize = 0;
        while i < digit_count
            invariant
                i <= digit_count,
                state@.len() == i,
                forall|j: int| 0 <= j < i ==> state@[j] is None,
            decreases digit_count - i,
        {
            state.push(None);
            i += 1;
        }
        DigitControllerDirect { segments, state }
    }

    /// The commanded (set, clear) line levels of segment `i`, for the
    /// application to mirror onto the physical pins it owns.
    pub fn segment_levels(&self, i: usize) -> (r: (bool, bool))
        requires
            self.wf(),
            i < SEGMENTS,
        ensures
            r.0 == self.segs()[i as int].set_level(),
            r.1 == self.segs()[i as int].clear_level(),
    {
        self.segments[i].levels()
    }
}

impl DigitController for DigitControllerDirect {
    closed spec fn slots(&self) -> Seq<Option<SegmentPattern>> {
        self.state@
    }

    closed spec fn wf(&self) -> bool {
        self.segments@.len() == 7
    }

    fn digit_count(&self) -> (r: usize) {
        self.state.len()
    }

    fn slot(&self, digit: usize) -> (r: Option<SegmentPattern>) {
        self.state[digit]
    }

    /// Beyond the shared contract, the direct back end promises what its
    /// coil lines hold afterwards: each segment's line pair carries out
    /// exactly the diff rule's action for that segment.
    fn update(&mut self, digit: usize, new_state: SegmentPattern) -> (r: Result<bool, HwError>)
        ensures
            digit < old(self).slots().len() ==> forall|i: int|
                0 <= i < 7 ==> action_applied(
                    final(self).segs()[i],
                    segment_action(old(self).slots()[digit as int], new_state, i),
                ),
    {
        if digit >= self.state.len() {
            return Err(HwError::DoesNotExist);
        }
        let ghost old_slots = self.state@;
        let slot = self.state[digit];
        let mut requires_update: bool = false;
        match slot {
            None => {
                let mut i: usize = 0;
                while i < SEGMENTS
                    invariant
                        i <= SEGMENTS,
                        self.segments@.len() == 7,
                        self.state@ == old_slots,
                        forall|j: int|
                            0 <= j < i ==> action_applied(
                                self.segs()[j],
                                segment_action(None::<SegmentPattern>, new_state, j),
                            ),
                    decreases SEGMENTS - i,
                {
                    let on = new_state.get(i);
                    let mut s = self.segments[i];
                    s.drive(on);
                    self.segments.set(i, s);
                    i += 1;
                }
                // An unwritten slot always counts as a change.
                requires_update = true;
            },
            Some(old_state) => {
                let mut i: usize = 0;
                while i < SEGMENTS
                    invariant
                        i <= SEGMENTS,
                        self.segments@.len() == 7,
                        self.state@ == old_slots,
                        forall|j: int|
                            0 <= j < i ==> action_applied(
                                self.segs()[j],
                                segment_action(Some(old_state), new_state, j),
                            ),
                        requires_update == exists|j: int|
                            0 <= j < i && old_state.seg(j) != new_state.seg(j),
                    decreases SEGMENTS - i,
                {
                    // Energizing a coil whose segment keeps its state would
                    // waste energy: pulse only on a state transition.
                    let on = new_state.get(i);
                    if old_state.get(i) != on {
                        let mut s = self.segments[i];
                        s.drive(on);
                        self.segments.set(i, s);
                        requires_update = true;
                    } else {
                        let mut s = self.segments[i];
                        s.release();
                        self.segments.set(i, s);
                    }
                    i += 1;
                }
                proof {
                    crate::controller::lemma_diff_exact(old_state, new_state);
                }
            },
        }
        self.state.set(digit, Some(new_state));
        proof {
            assert(self.state@ =~= old_slots.update(digit as int, Some(new_state)));
        }
        Ok(requires_update)
    }

    /// Beyond the shared contract, the direct back end releases every coil
    /// line pair (idle-drains power without claiming a new logical state).
    fn clear_pins(&mut self)
        ensures
            forall|i: int| 0 <= i < 7 ==> final(self).segs()[i].released(),
    {
        let ghost slots0 = self.state@;
        let mut i: usize = 0;
        while i < SEGMENTS
            invariant
                i <= SEGMENTS,
                self.segments@.len() == 7,
                self.state@ == slots0,
                forall|j: int| 0 <= j < i ==> self.segments@[j].released(),
            decreases SEGMENTS - i,
        {
            let ghost prev = self.segments@;
            let mut s = self.segments[i];
            s.release();
            self.segments.set(i, s);
            proof {
                assert(self.segments@[i as int].released());
                assert(forall|j: int| 0 <= j < i ==> self.segments@[j] == prev[j]);
            }
            i += 1;
        }
    }
}

} // verus!
