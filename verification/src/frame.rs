//! Frame pacing. `FrameCycle` is the per-output backpressure state: at
//! most one frame is in flight (submitted and awaiting acknowledgment)
//! at any time, vblank signals that arrive while a frame is in flight
//! are dropped rather than queued, and only a completion signal clears
//! the in-flight flag. `DamageTracker` serves the software-paced
//! backend: it accumulates the screen area that must be repainted since
//! the last submitted frame.

use vstd::prelude::*;

use crate::geometry::Rect;
use crate::space::{contains_id, Window};

verus! {

/// Per-output frame-pacing state. The ghost counters record how many
/// frames were ever submitted and how many completions were received;
/// they exist only for the backpressure law.
pub struct FrameCycle {
    pub in_flight: bool,
    pub submitted: Ghost<nat>,
    pub completed: Ghost<nat>,
}

impl FrameCycle {
    /// A frame is in flight exactly when one more submission than
    /// completions has been counted.
    pub open spec fn wf(&self) -> bool {
        self.submitted@ == self.completed@ + (if self.in_flight {
            1nat
        } else {
            0nat
        })
    }

    /// A fresh cycle: idle, nothing submitted, nothing completed.
    pub fn new() -> (r: FrameCycle)
        ensures
            r.wf(),
            !r.in_flight,
            r.submitted@ == 0,
            r.completed@ == 0,
    {
        FrameCycle { in_flight: false, submitted: Ghost(0nat), completed: Ghost(0nat) }
    }

    /// Records a render+submit. Only an idle output may submit; this is
    /// what the initial unconditional render after mode-setting uses.
    pub fn submit(&mut self)
        requires
            old(self).wf(),
            !old(self).in_flight,
        ensures
            final(self).wf(),
            final(self).in_flight,
            final(self).submitted@ == old(self).submitted@ + 1,
            final(self).completed@ == old(self).completed@,
    {
        self.in_flight = true;
        proof {
            self.submitted@ = self.submitted@ + 1;
        }
    }

    /// The hardware-paced decision on a vblank signal: render and
    /// submit exactly when no frame is in flight; a vblank that arrives
    /// while one is in flight is dropped (no queuing), so the next
    /// vblank triggers the next submission.
    pub fn on_vblank(&mut self) -> (render: bool)
        requires
            old(self).wf(),
        ensures
            final(self).wf(),
            render == !old(self).in_flight,
            render ==> final(self).in_flight && final(self).submitted@ == old(self).submitted@ + 1
                && final(self).completed@ == old(self).completed@,
            !render ==> *final(self) == *old(self),
    {
        if self.in_flight {
            false
        } else {
            self.submit();
            true
        }
    }

    /// Records the completion signal for the frame in flight: the only
    /// way the in-flight flag clears. A completion for an idle output
    /// changes nothing.
    pub fn on_frame_complete(&mut self)
        requires
            old(self).wf(),
        ensures
            final(self).wf(),
            !final(self).in_flight,
            old(self).in_flight ==> final(self).completed@ == old(self).completed@ + 1
                && final(self).submitted@ == old(self).submitted@,
            !old(self).in_flight ==> *final(self) == *old(self),
    {
        if self.in_flight {
            self.in_flight = false;
            proof {
                self.completed@ = self.completed@ + 1;
            }
        }
    }
}

/// Law: under the frame-cycle invariant, the number of render+submit
/// calls ever issued never exceeds the number of completion signals
/// received plus one (the one allowance being the initial unconditional
/// render). Every `FrameCycle` operation preserves the invariant, so
/// this holds after any sequence of vblank and completion signals.
pub proof fn lemma_frame_backpressure(fc: FrameCycle)
    requires
        fc.wf(),
    ensures
        fc.submitted@ <= fc.completed@ + 1,
{
}

/// The damage contributed by the windows visible now: the geometry of
/// every window that is new or whose entry changed since `prev`.
pub open spec fn changed_damage(prev: Seq<Window>, cur: Seq<Window>) -> Seq<Rect>
    decreases cur.len(),
{
    if cur.len() == 0 {
        Seq::empty()
    } else {
        let rest = changed_damage(prev, cur.drop_last());
        if !prev.contains(cur.last()) {
            rest.push(cur.last().geometry)
        } else {
            rest
        }
    }
}

/// The damage contributed by windows that vanished: the old geometry of
/// every window of `prev` whose identity no longer appears in `cur`.
pub open spec fn removed_damage(prev: Seq<Window>, cur: Seq<Window>) -> Seq<Rect>
    decreases prev.len(),
{
    if prev.len() == 0 {
        Seq::empty()
    } else {
        let rest = removed_damage(prev.drop_last(), cur);
        if !contains_id(cur, prev.last().id) {
            rest.push(prev.last().geometry)
        } else {
            rest
        }
    }
}

/// The damage a redraw must repaint: the whole output after a mode
/// change, plus the geometry of every changed and every removed window.
pub open spec fn spec_damage(
    prev: Seq<Window>,
    cur: Seq<Window>,
    full: bool,
    output_rect: Rect,
) -> Seq<Rect> {
    (if full {
        seq![output_rect]
    } else {
        Seq::empty()
    }) + changed_damage(prev, cur) + removed_damage(prev, cur)
}

/// Incremental damage tracking for the software-paced backend: holds
/// the render elements of the last submitted frame and whether a mode
/// change forces a full repaint.
pub struct DamageTracker {
    pub previous: Vec<Window>,
    pub force_full: bool,
}

impl DamageTracker {
    /// A fresh tracker forces a full repaint of the first frame.
    pub fn new() -> (r: DamageTracker)
        ensures
            r.previous@.len() == 0,
            r.force_full,
    {
        DamageTracker { previous: Vec::new(), force_full: true }
    }

    /// Records a mode change: the whole output area must be repainted
    /// on the next redraw.
    pub fn note_mode_change(&mut self)
        ensures
            final(self).force_full,
            final(self).previous@ == old(self).previous@,
    {
        self.force_full = true;
    }

    /// Answers a redraw request: computes the accumulated damage
    /// against the previous frame's elements and snapshots `current` as
    /// the new baseline. The caller renders exactly when the returned
    /// damage is non-empty and submits in either case.
    pub fn plan_redraw(&mut self, current: &Vec<Window>, output_rect: Rect) -> (damage: Vec<Rect>)
        ensures
            damage@ == spec_damage(
                old(self).previous@,
                current@,
                old(self).force_full,
                output_rect,
            ),
            final(self).previous@ == current@,
            !final(self).force_full,
    {
        let mut damage: Vec<Rect> = Vec::new();
        if self.force_full {
            damage.push(output_rect);
        }
        proof {
            let base = if old(self).force_full {
                seq![output_rect]
            } else {
                Seq::<Rect>::empty()
            };
            assert(damage@ =~= base);
            assert(current@.take(0) =~= Seq::<Window>::empty());
            assert(base + changed_damage(self.previous@, current@.take(0)) =~= base);
        }
        let ghost base = damage@;
        let mut i: usize = 0;
        while i < current.len()
            invariant
                0 <= i <= current@.len(),
                self == old(self),
                damage@ == base + changed_damage(self.previous@, current@.take(i as int)),
            decreases current@.len() - i,
        {
            proof {
                assert(current@.take(i + 1).drop_last() =~= current@.take(i as int));
                assert(current@.take(i + 1).last() == current@[i as int]);
            }
            if !contains_window_entry(&self.previous, &current[i]) {
                damage.push(current[i].geometry);
            }
            i = i + 1;
        }
        proof {
            assert(current@.take(i as int) =~= current@);
        }
        let ghost mid = damage@;
        proof {
            assert(mid + removed_damage(self.previous@.take(0), current@) =~= mid) by {
                assert(self.previous@.take(0) =~= Seq::<Window>::empty());
            }
        }
        let mut j: usize = 0;
        while j < self.previous.len()
            invariant
                0 <= j <= self.previous@.len(),
                self == old(self),
                damage@ == mid + removed_damage(self.previous@.take(j as int), current@),
            decreases self.previous@.len() - j,
        {
            proof {
                assert(self.previous@.take(j + 1).drop_last() =~= self.previous@.take(j as int));
                assert(self.previous@.take(j + 1).last() == self.previous@[j as int]);
            }
            if !stack_contains_id(current, self.previous[j].id) {
                damage.push(self.previous[j].geometry);
            }
            j = j + 1;
        }
        proof {
            assert(self.previous@.take(j as int) =~= self.previous@);
            assert(damage@ =~= spec_damage(
                old(self).previous@,
                current@,
                old(self).force_full,
                output_rect,
            ));
        }
        self.previous = clone_windows(current);
        self.force_full = false;
        damage
    }
}

/// Whether `stack` holds an entry equal to `w` in every attribute.
fn contains_window_entry(stack: &Vec<Window>, w: &Window) -> (r: bool)
    ensures
        r == stack@.contains(*w),
{
    let mut i: usize = 0;
    while i < stack.len()
        invariant
            0 <= i <= stack@.len(),
            forall|k: int| 0 <= k < i ==> stack@[k] != *w,
        decreases stack@.len() - i,
    {
        if stack[i] == *w {
            return true;
        }
        i = i + 1;
    }
    false
}

/// Whether `stack` holds a window of identity `id`.
pub fn stack_contains_id(stack: &Vec<Window>, id: u64) -> (r: bool)
    ensures
        r == contains_id(stack@, id),
{
    let mut i: usize = 0;
    while i < stack.len()
        invariant
            0 <= i <= stack@.len(),
            forall|k: int| 0 <= k < i ==> stack@[k].id != id,
        decreases stack@.len() - i,
    {
        if stack[i].id == id {
            return true;
        }
        i = i + 1;
    }
    false
}

/// A copy of a window stack; `Window` is plain data.
fn clone_windows(stack: &Vec<Window>) -> (r: Vec<Window>)
    ensures
        r@ == stack@,
{
    let mut out: Vec<Window> = Vec::new();
    let mut i: usize = 0;
    while i < stack.len()
        invariant
            0 <= i <= stack@.len(),
            out@ == stack@.take(i as int),
        decreases stack@.len() - i,
    {
        out.push(stack[i]);
        proof {
            assert(out@ =~= stack@.take(i + 1));
        }
        i = i + 1;
    }
    proof {
        assert(stack@.take(i as int) =~= stack@);
    }
    out
}

} // verus!
