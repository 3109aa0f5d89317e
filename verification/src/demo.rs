//! The demo's per-frame game logic: a shape follows the mouse, a button click
//! cycles the colour, and a shutdown click ends the loop.
//!
//! Each frame the worker receives the batch of events that accumulated on the
//! main thread and folds them, in order, into its state; a shutdown click
//! stops the fold at once and asks the loop to exit.

use vstd::prelude::*;

verus! {

/// An input event sent from the main thread to the worker.  Mouse
/// coordinates are relative to the canvas, in whole pixels.
#[derive(Debug, Clone, Copy, PartialEq)]
pub enum MEvent {
    CanvasMouseMove { x: i64, y: i64 },
    ButtonClick,
    ShutdownClick,
}

/// The worker's game state: where the mouse last was, and which of the
/// `n_colors` configured colours is current.
#[derive(Debug, Clone, Copy, PartialEq)]
pub struct DemoState {
    pub mouse_pos: [i64; 2],
    pub color_index: usize,
    pub n_colors: usize,
}

impl DemoState {
    /// The state is over a non-empty colour table and points into it.
    pub open spec fn wf(&self) -> bool {
        1 <= self.n_colors && self.color_index < self.n_colors
    }

    /// The state at the start of the loop: mouse at the origin, first colour
    /// current.
    pub fn new(n_colors: usize) -> (s: DemoState)
        requires
            1 <= n_colors,
        ensures
            s.wf(),
            s.mouse_pos == [0i64, 0i64],
            s.color_index == 0,
            s.n_colors == n_colors,
    {
        DemoState { mouse_pos: [0, 0], color_index: 0, n_colors }
    }

    /// Apply the whole batch for one frame, in order, stopping at the first
    /// shutdown click.  Returns whether the loop must exit.
    pub fn apply_frame(&mut self, events: &Vec<MEvent>) -> (shutdown: bool)
        requires
            old(self).wf(),
        ensures
            final(self).wf(),
            (*final(self), shutdown) == apply_events(*old(self), events@),
    {
        proof {
            assert(events@.skip(0) =~= events@);
        }
        let n = events.len();
        let mut i: usize = 0;
        while i < n
            invariant
                self.wf(),
                i <= n,
                n == events@.len(),
                apply_events(*old(self), events@) == apply_events(*self, events@.skip(i as int)),
            decreases n - i,
        {
            proof {
                assert(events@.skip(i as int)[0] == events@[i as int]);
                assert(events@.skip(i as int).drop_first() =~= events@.skip(i as int + 1));
            }
            match events[i] {
                MEvent::CanvasMouseMove { x, y } => {
                    self.mouse_pos = [x, y];
                },
                MEvent::ButtonClick => {
                    self.color_index = (self.color_index + 1) % self.n_colors;
                },
                MEvent::ShutdownClick => {
                    proof {
                        assert(events@.skip(i as int).len() > 0);
                        assert(apply_events(*self, events@.skip(i as int)) == (*self, true));
                    }
                    return true;
                },
            }
            i = i + 1;
        }
        false
    }
}

/// Fold one event into the state.  A shutdown click is handled by the loop,
/// not here.
pub open spec fn step_event(s: DemoState, e: MEvent) -> DemoState {
    match e {
        MEvent::CanvasMouseMove { x, y } => DemoState { mouse_pos: [x, y], ..s },
        MEvent::ButtonClick => DemoState {
            color_index: ((s.color_index + 1) % (s.n_colors as int)) as usize,
            ..s
        },
        MEvent::ShutdownClick => s,
    }
}

/// Fold a batch of events into the state, oldest first, stopping at the
/// first shutdown click; the flag says whether one was met.
pub open spec fn apply_events(s: DemoState, evs: Seq<MEvent>) -> (DemoState, bool)
    decreases evs.len(),
{
    if evs.len() == 0 {
        (s, false)
    } else if evs[0] is ShutdownClick {
        (s, true)
    } else {
        apply_events(step_event(s, evs[0]), evs.drop_first())
    }
}

/// How many button clicks a batch holds.
pub open spec fn count_clicks(evs: Seq<MEvent>) -> int
    decreases evs.len(),
{
    if evs.len() == 0 {
        0
    } else {
        (if evs[0] is ButtonClick {
            1int
        } else {
            0int
        }) + count_clicks(evs.drop_first())
    }
}

/// Over a batch with no shutdown click, the colour cycles: the final colour
/// index is the initial one advanced by the number of clicks, modulo the
/// size of the colour table, and the loop does not exit.
pub proof fn lemma_clicks_cycle_colors(s: DemoState, evs: Seq<MEvent>)
    requires
        s.wf(),
        forall|i: int| 0 <= i < evs.len() ==> !((#[trigger] evs[i]) is ShutdownClick),
    ensures
        ({
            let (s2, shutdown) = apply_events(s, evs);
            !shutdown && s2.n_colors == s.n_colors && s2.color_index == (s.color_index
                + count_clicks(evs)) % (s.n_colors as int)
        }),
    decreases evs.len(),
{
    vstd::arithmetic::div_mod::lemma_small_mod(s.color_index as nat, s.n_colors as nat);
    if evs.len() == 0 {
    } else {
        let s1 = step_event(s, evs[0]);
        assert(forall|i: int|
            0 <= i < evs.drop_first().len() ==> evs.drop_first()[i] == evs[i + 1]);
        lemma_clicks_cycle_colors(s1, evs.drop_first());
        let (s2, shutdown) = apply_events(s1, evs.drop_first());
        if evs[0] is ButtonClick {
            vstd::arithmetic::div_mod::lemma_add_mod_noop_right(
                count_clicks(evs.drop_first()),
                s.color_index + 1,
                s.n_colors as int,
            );
        }
    }
}

} // verus!
