//! One full render pass: decompose a value into per-position digits
//! (suppressing leading zeros), diff-render each position, and strobe the
//! positions that changed — in an order that keeps every position's segment
//! drives strictly before its strobe, so a neighboring digit never flashes a
//! half-written pattern.
//!
//! The pass returns the ordered operation plan; the application performs
//! each operation on its physical lines, then blanks the drive lines and
//! waits a refresh interval before the next pass.

use vstd::prelude::*;
use vstd::arithmetic::div_mod::lemma_div_denominator;
use crate::pattern::SegmentPattern;
use crate::pattern::encoded;
use crate::pattern::encode;
use crate::pattern::valid_number;
use crate::controller::DigitController;
use crate::controller::SegmentAction;
use crate::controller::segment_action;
use crate::controller::slot_changed;

verus! {

/// `10^i`, the weight of decimal position `i`.
pub open spec fn pow10(i: int) -> int
    decreases i,
{
    if i <= 0 {
        1
    } else {
        10 * pow10(i - 1)
    }
}

proof fn lemma_pow10_pos(i: int)
    ensures
        pow10(i) > 0,
    decreases i,
{
    if i > 0 {
        lemma_pow10_pos(i - 1);
    }
}

/// The digit value rendered at position `i` (position 0 is the least
/// significant): the decimal digit there, except that a leading zero
/// position is blanked — unless it is position 0, which always shows a
/// digit, even when the whole value is zero.
pub open spec fn shown_digit(value: usize, i: int) -> Option<usize> {
    if value as int / pow10(i) > 0 || i == 0 {
        Some((((value as int / pow10(i)) % 10) as usize))
    } else {
        None
    }
}

/// The digit value at every position of a `digit_count`-digit unit,
/// least-significant position first.
pub fn digit_values(value: usize, digit_count: usize) -> (r: Vec<Option<usize>>)
    ensures
        r@.len() == digit_count,
        forall|i: int| 0 <= i < digit_count ==> r@[i] == shown_digit(value, i),
        forall|i: int| 0 <= i < digit_count ==> valid_number(r@[i]),
{
    let mut r: Vec<Option<usize>> = Vec::new();
    let mut tmp: usize = value;
    let mut i: usize = 0;
    while i < digit_count
        invariant
            i <= digit_count,
            tmp as int == value as int / pow10(i as int),
            r@.len() == i,
            forall|j: int| 0 <= j < i ==> r@[j] == shown_digit(value, j),
            forall|j: int| 0 <= j < i ==> valid_number(r@[j]),
        decreases digit_count - i,
    {
        // Don't show leading zeros: blank the position instead, except
        // position 0, which shows the value's last digit even at zero.
        let dv = if tmp > 0 || (value == 0 && i == 0) {
            Some(tmp % 10)
        } else {
            None
        };
        proof {
            if i == 0 {
                assert(pow10(0) == 1);
                assert(value as int / 1 == value as int);
            }
            assert(dv == shown_digit(value, i as int));
        }
        r.push(dv);
        proof {
            lemma_pow10_pos(i as int);
            lemma_div_denominator(value as int, pow10(i as int), 10);
        }
        tmp = tmp / 10;
        i += 1;
    }
    r
}

/// One step of a render pass, for the application to perform in plan order.
#[derive(Clone, Copy, Debug, PartialEq, Eq, Structural)]
pub enum RenderOp {
    /// Drive position `digit`'s segment `segment` toward lit state `on`:
    /// energize the one matching coil line (set for on, clear for off).
    Drive { digit: usize, segment: usize, on: bool },
    /// Leave position `digit`'s segment `segment` idle: both coil lines
    /// low, no pulse.
    Release { digit: usize, segment: usize },
    /// Strobe position `digit`'s selector for `hold_ms` milliseconds, making
    /// the driven pattern visible there.
    Strobe { digit: usize, hold_ms: u16 },
    /// De-energize every segment drive line after the pass.
    ReleaseAll,
}

/// The op that carries out the diff rule's action for segment `i` of
/// position `d`.
pub open spec fn op_for_segment(
    slot: Option<SegmentPattern>,
    p: SegmentPattern,
    d: int,
    i: int,
) -> RenderOp {
    match segment_action(slot, p, i) {
        SegmentAction::Drive(on) => RenderOp::Drive { digit: d as usize, segment: i as usize, on },
        SegmentAction::Release => RenderOp::Release { digit: d as usize, segment: i as usize },
    }
}

/// The ops a render pass issues for position `d`: its seven segment ops,
/// then — only if the position changed — its strobe.
pub open spec fn digit_ops(
    slot: Option<SegmentPattern>,
    value: usize,
    d: int,
    hold_ms: u16,
) -> Seq<RenderOp> {
    let p = encoded(shown_digit(value, d));
    Seq::new(7, |i: int| op_for_segment(slot, p, d, i)) + if slot_changed(slot, p) {
        seq![RenderOp::Strobe { digit: d as usize, hold_ms }]
    } else {
        Seq::empty()
    }
}

/// The ops a render pass issues for positions `0 .. count`, in position
/// order, before the final release of the drive lines.
pub open spec fn render_ops(
    slots: Seq<Option<SegmentPattern>>,
    value: usize,
    count: int,
    hold_ms: u16,
) -> Seq<RenderOp>
    decreases count,
{
    if count <= 0 {
        Seq::empty()
    } else {
        render_ops(slots, value, count - 1, hold_ms) + digit_ops(
            slots[count - 1],
            value,
            count - 1,
            hold_ms,
        )
    }
}

/// Every slot after a full render pass: the pattern of its shown digit.
pub open spec fn rendered_slots(slots: Seq<Option<SegmentPattern>>, value: usize) -> Seq<
    Option<SegmentPattern>,
> {
    Seq::new(slots.len(), |d: int| Some(encoded(shown_digit(value, d))))
}

/// Whether `op` writes a segment line of position `d`.
pub open spec fn is_segment_op_for(op: RenderOp, d: int) -> bool {
    match op {
        RenderOp::Drive { digit, .. } => digit == d,
        RenderOp::Release { digit, .. } => digit == d,
        _ => false,
    }
}

/// Whether `op` strobes position `d`'s selector.
pub open spec fn is_strobe_for(op: RenderOp, d: int) -> bool {
    match op {
        RenderOp::Strobe { digit, .. } => digit == d,
        _ => false,
    }
}

/// The position an op belongs to (`ReleaseAll` belongs to none).
spec fn op_position(op: RenderOp) -> Option<int> {
    match op {
        RenderOp::Drive { digit, .. } => Some(digit as int),
        RenderOp::Release { digit, .. } => Some(digit as int),
        RenderOp::Strobe { digit, .. } => Some(digit as int),
        RenderOp::ReleaseAll => None,
    }
}

proof fn lemma_digit_ops_positions(slot: Option<SegmentPattern>, value: usize, d: int, hold_ms: u16)
    requires
        0 <= d <= usize::MAX,
    ensures
        forall|t: int|
            0 <= t < digit_ops(slot, value, d, hold_ms).len() ==> op_position(
                #[trigger] digit_ops(slot, value, d, hold_ms)[t],
            ) == Some(d),
        digit_ops(slot, value, d, hold_ms).len() == 7 || digit_ops(slot, value, d, hold_ms).len()
            == 8,
        forall|t: int|
            0 <= t < digit_ops(slot, value, d, hold_ms).len() && is_strobe_for(
                #[trigger] digit_ops(slot, value, d, hold_ms)[t],
                d,
            ) ==> t == 7,
{
    let p = encoded(shown_digit(value, d));
    let segs = Seq::new(7, |i: int| op_for_segment(slot, p, d, i));
    assert(forall|i: int| 0 <= i < 7 ==> op_position(#[trigger] segs[i]) == Some(d));
    assert(forall|i: int| 0 <= i < 7 ==> !is_strobe_for(#[trigger] segs[i], d));
}

proof fn lemma_render_ops_position_bound(
    slots: Seq<Option<SegmentPattern>>,
    value: usize,
    count: int,
    hold_ms: u16,
)
    requires
        0 <= count <= usize::MAX,
    ensures
        forall|t: int|
            0 <= t < render_ops(slots, value, count, hold_ms).len() ==> (match op_position(
                #[trigger] render_ops(slots, value, count, hold_ms)[t],
            ) {
                Some(d) => 0 <= d < count,
                None => false,
            }),
    decreases count,
{
    if count > 0 {
        lemma_render_ops_position_bound(slots, value, count - 1, hold_ms);
        lemma_digit_ops_positions(slots[count - 1], value, count - 1, hold_ms);
    }
}

/// Law (ordering): within one render pass, every segment write for a digit
/// position stands strictly before that position's strobe in the plan: the
/// pattern is fully driven before the position becomes visible.
pub proof fn lemma_segment_ops_before_strobe(
    slots: Seq<Option<SegmentPattern>>,
    value: usize,
    count: int,
    hold_ms: u16,
    d: int,
    j: int,
    k: int,
)
    requires
        0 <= count <= usize::MAX,
        0 <= j < render_ops(slots, value, count, hold_ms).len(),
        0 <= k < render_ops(slots, value, count, hold_ms).len(),
        is_segment_op_for(render_ops(slots, value, count, hold_ms)[j], d),
        is_strobe_for(render_ops(slots, value, count, hold_ms)[k], d),
    ensures
        j < k,
    decreases count,
{
    let ops = render_ops(slots, value, count, hold_ms);
    let prefix = render_ops(slots, value, count - 1, hold_ms);
    let block = digit_ops(slots[count - 1], value, count - 1, hold_ms);
    lemma_render_ops_position_bound(slots, value, count, hold_ms);
    lemma_digit_ops_positions(slots[count - 1], value, count - 1, hold_ms);
    if count > 0 {
        lemma_render_ops_position_bound(slots, value, count - 1, hold_ms);
        if k < prefix.len() {
            // The strobe lies in the earlier positions, so the segment op
            // does too: every op of the last block belongs to position
            // count - 1, while ops[k] shows d < count - 1.
            assert(op_position(prefix[k]) == Some(d));
            assert(d < count - 1);
            assert(j < prefix.len()) by {
                if j >= prefix.len() {
                    assert(ops[j] == block[j - prefix.len()]);
                    assert(op_position(ops[j]) == Some(count - 1));
                }
            }
            lemma_segment_ops_before_strobe(
                slots,
                value,
                count - 1,
                hold_ms,
                d,
                j,
                k,
            );
        } else {
            // The strobe is the last op of the last block; every segment op
            // of its position lies in that block before it.
            assert(ops[k] == block[k - prefix.len()]);
            assert(op_position(ops[k]) == Some(count - 1));
            assert(d == count - 1);
            assert(k - prefix.len() == 7);
            if j < prefix.len() {
                assert(op_position(prefix[j]) == Some(d));
                assert(false);
            }
            assert(ops[j] == block[j - prefix.len()]);
            assert(j - prefix.len() < block.len());
            assert(!is_strobe_for(block[j - prefix.len()], d) ==> j - prefix.len() != 7) by {
                if j - prefix.len() == 7 {
                    assert(block.len() == 8);
                }
            }
            let p = encoded(shown_digit(value, count - 1));
            if j - prefix.len() == 7 {
                assert(block.len() == 8);
                assert(block[7] == RenderOp::Strobe {
                    digit: (count - 1) as usize,
                    hold_ms,
                });
                assert(!is_segment_op_for(block[7], d));
            }
            assert(j - prefix.len() < 7);
        }
    }
}

/// Runs one full render pass of `value` over every digit position of `c`:
/// each position is diff-rendered and, when it changed, strobed; afterwards
/// every drive line is released. Returns the ordered plan of line
/// operations that realizes the pass.
pub fn render_pass<C: DigitController>(c: &mut C, value: usize, hold_ms: u16) -> (ops: Vec<
    RenderOp,
>)
    requires
        old(c).wf(),
    ensures
        final(c).wf(),
        final(c).slots() == rendered_slots(old(c).slots(), value),
        ops@ == render_ops(old(c).slots(), value, old(c).slots().len() as int, hold_ms) + seq![
            RenderOp::ReleaseAll,
        ],
{
    let ghost slots0 = old(c).slots();
    let count = c.digit_count();
    let mut ops: Vec<RenderOp> = Vec::new();
    let mut tmp: usize = value;
    let mut d: usize = 0;
    while d < count
        invariant
            d <= count,
            count == slots0.len(),
            c.wf(),
            tmp as int == value as int / pow10(d as int),
            c.slots().len() == slots0.len(),
            forall|j: int| 0 <= j < d ==> c.slots()[j] == Some(encoded(shown_digit(value, j))),
            forall|j: int| d <= j < count ==> c.slots()[j] == slots0[j],
            ops@ == render_ops(slots0, value, d as int, hold_ms),
        decreases count - d,
    {
        let dv = if tmp > 0 || (value == 0 && d == 0) {
            Some(tmp % 10)
        } else {
            None
        };
        proof {
            if d == 0 {
                assert(pow10(0) == 1);
                assert(value as int / 1 == value as int);
            }
            assert(dv == shown_digit(value, d as int));
        }
        let p = match encode(dv) {
            Ok(p) => p,
            Err(_) => {
                proof {
                    assert(false);
                }
                SegmentPattern::from_segments(false, false, false, false, false, false, false)
            },
        };
        let slot = c.slot(d);
        let ghost base = ops@;
        let mut i: usize = 0;
        while i < 7
            invariant
                i <= 7,
                ops@.len() == base.len() + i,
                forall|k: int| 0 <= k < base.len() ==> ops@[k] == base[k],
                forall|k: int|
                    0 <= k < i ==> ops@[base.len() + k] == op_for_segment(
                        slot,
                        p,
                        d as int,
                        k,
                    ),
            decreases 7 - i,
        {
            let op = match slot {
                None => RenderOp::Drive { digit: d, segment: i, on: p.get(i) },
                Some(old_p) => {
                    if old_p.get(i) != p.get(i) {
                        RenderOp::Drive { digit: d, segment: i, on: p.get(i) }
                    } else {
                        RenderOp::Release { digit: d, segment: i }
                    }
                },
            };
            ops.push(op);
            i += 1;
        }
        let changed = match c.update(d, p) {
            Ok(changed) => changed,
            Err(_) => {
                proof {
                    assert(false);
                }
                false
            },
        };
        if changed {
            ops.push(RenderOp::Strobe { digit: d, hold_ms });
        }
        proof {
            assert(p == encoded(shown_digit(value, d as int)));
            assert(ops@ =~= base + digit_ops(slot, value, d as int, hold_ms));
            assert(ops@ =~= render_ops(slots0, value, d as int + 1, hold_ms));
            lemma_pow10_pos(d as int);
            lemma_div_denominator(value as int, pow10(d as int), 10);
        }
        tmp = tmp / 10;
        d += 1;
    }
    c.clear_pins();
    ops.push(RenderOp::ReleaseAll);
    proof {
        assert(final(c).slots() =~= rendered_slots(slots0, value));
        assert(ops@ =~= render_ops(slots0, value, slots0.len() as int, hold_ms) + seq![
            RenderOp::ReleaseAll,
        ]);
    }
    ops
}

} // verus!
