//! The event engine: a buffered queue of input events drained once per frame,
//! paced by a per-frame time budget.
//!
//! An event listener pushes events into the pending queue as they arrive; at
//! the start of each frame the engine computes how long to sleep, then moves
//! the accumulated events, in arrival order, into the batch handed to the
//! frame.

use vstd::prelude::*;

use crate::timing::{frame_delay, rounded_div, rounded_div_u64};

verus! {

/// An input event captured on the canvas.  Coordinates are relative to the
/// canvas's top-left corner, in whole pixels.
#[derive(Debug, Clone, Copy, PartialEq)]
pub enum Event {
    MouseDown([i64; 2]),
}

/// The element the engine was asked to attach to does not exist.
#[derive(Debug, Copy, Clone, PartialEq)]
pub struct NoElem;

/// Captures input events and batches them up once per frame.
pub struct Engine {
    events: Vec<Event>,
    buffer: Vec<Event>,
    last: u64,
    frame_budget: u64,
}

impl Engine {
    /// The events that arrived since the last frame, oldest first.
    pub closed spec fn pending(&self) -> Seq<Event> {
        self.events@
    }

    /// The batch of events handed to the current frame.
    pub closed spec fn batch(&self) -> Seq<Event> {
        self.buffer@
    }

    /// The timestamp, in milliseconds, at which the current frame began.
    pub closed spec fn last_frame(&self) -> u64 {
        self.last
    }

    /// The per-frame time budget in milliseconds.
    pub closed spec fn budget(&self) -> u64 {
        self.frame_budget
    }

    /// Start an engine at `frame_rate` frames per second, with `now` the
    /// current reading of the clock in milliseconds.  The engine's budget is
    /// a tenth of a second divided by the rate, rounded to the nearest
    /// millisecond.
    pub fn new(frame_rate: u64, now: u64) -> (e: Engine)
        requires
            1 <= frame_rate <= 0x7fff_ffff,
        ensures
            e.pending() == Seq::<Event>::empty(),
            e.batch() == Seq::<Event>::empty(),
            e.last_frame() == now,
            e.budget() == rounded_div(100, frame_rate as int),
    {
        Engine {
            events: Vec::new(),
            buffer: Vec::new(),
            last: now,
            frame_budget: rounded_div_u64(100, frame_rate),
        }
    }

    /// Record one event at the back of the pending queue.  This is what the
    /// registered listener does on every click.
    pub fn push_event(&mut self, ev: Event)
        ensures
            final(self).pending() == old(self).pending().push(ev),
            final(self).batch() == old(self).batch(),
            final(self).last_frame() == old(self).last_frame(),
            final(self).budget() == old(self).budget(),
    {
        self.events.push(ev);
    }

    /// Begin the next frame: report how many milliseconds remain of the
    /// frame budget, measured by two successive readings of the monotonic
    /// clock, and make `now_first` the new frame timestamp.
    pub fn begin_frame(&mut self, now_first: u64, now_second: u64) -> (delay: u64)
        requires
            old(self).last_frame() <= now_first <= now_second,
        ensures
            final(self).pending() == old(self).pending(),
            final(self).batch() == old(self).batch(),
            final(self).budget() == old(self).budget(),
            final(self).last_frame() == now_first,
            delay == frame_delay(
                old(self).budget() as int,
                now_second - old(self).last_frame(),
            ),
            delay <= old(self).budget(),
    {
        let elapsed = now_second - self.last;
        let delay = if elapsed < self.frame_budget {
            self.frame_budget - elapsed
        } else {
            0
        };
        self.last = now_first;
        delay
    }

    /// Move every pending event, in arrival order, into the batch for this
    /// frame, leaving the pending queue empty.
    pub fn collect_batch(&mut self)
        ensures
            final(self).batch() == old(self).pending(),
            final(self).pending() == Seq::<Event>::empty(),
            final(self).last_frame() == old(self).last_frame(),
            final(self).budget() == old(self).budget(),
    {
        self.buffer.clear();
        core::mem::swap(&mut self.buffer, &mut self.events);
    }

    /// The batch collected for the current frame.
    pub fn batch_events(&self) -> (r: &Vec<Event>)
        ensures
            r@ == self.batch(),
    {
        &self.buffer
    }
}

/// The connection to the game server could not be made or was lost.
#[derive(Debug, Copy, Clone, PartialEq)]
pub enum GameError {
    SocketErr,
}

/// Paces rendering: a frame is drawn through an animation-frame callback,
/// abandoned if the callback has not fired after `max_delay` milliseconds.
pub struct Renderer {
    max_delay: usize,
}

impl Renderer {
    /// The longest time, in milliseconds, to wait for an animation frame.
    pub closed spec fn max_delay(&self) -> usize {
        self.max_delay
    }

    pub fn new(max_delay: usize) -> (r: Renderer)
        ensures
            r.max_delay() == max_delay,
    {
        Renderer { max_delay }
    }

    /// Decide the outcome of one render attempt: `winner` is the value the
    /// animation-frame callback produced, or nothing if the deadline fired
    /// first.  A missed deadline is reported as an error.
    pub fn render_outcome<K>(&self, winner: Option<K>) -> (r: Result<K, GameError>)
        ensures
            r == (match winner {
                Option::Some(k) => Result::<K, GameError>::Ok(k),
                Option::None => Result::<K, GameError>::Err(GameError::SocketErr),
            }),
    {
        match winner {
            Option::Some(k) => Result::Ok(k),
            Option::None => Result::Err(GameError::SocketErr),
        }
    }
}

} // verus!
