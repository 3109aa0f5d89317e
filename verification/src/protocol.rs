//! The main-thread / worker-thread handshake protocol.
//!
//! Both directions of the message channel carry two-slot frames.  Towards the
//! main thread the first slot is a control tag (the worker announces "ready"
//! there) and the second a payload; towards the worker the first slot carries
//! the transferred canvas and the second a payload.  Startup is a handshake:
//! the worker announces readiness, the main thread answers with the one frame
//! that transfers the canvas, and from then on only payload frames flow.
//!
//! The listeners on both sides are modeled here as state machines over those
//! frames, with proofs that the readiness signal fires at most once, that the
//! canvas is delivered at most once, and that payloads are forwarded in
//! arrival order.

use vstd::prelude::*;

verus! {

/// The control slot of a frame sent to the main thread, as the listener sees
/// it: empty, a piece of text, or some other value.
#[derive(Debug, Clone, PartialEq)]
pub enum Tag {
    Null,
    Text(String),
    Other,
}

/// A frame on the worker-to-main channel.
#[derive(Debug, Clone, PartialEq)]
pub struct ToMainFrame<P> {
    pub tag: Tag,
    pub payload: Option<P>,
}

/// A frame on the main-to-worker channel.
#[derive(Debug, Clone, PartialEq)]
pub struct ToWorkerFrame<T, P> {
    pub transfer: Option<T>,
    pub payload: Option<P>,
}

/// Whether a control tag is the worker's readiness announcement.
pub open spec fn is_ready_tag(tag: Tag) -> bool {
    match tag {
        Tag::Text(s) => s@ == "ready"@,
        _ => false,
    }
}

/// The frame with which the worker announces that it is ready to receive the
/// canvas.
pub fn ready_frame<P>() -> (f: ToMainFrame<P>)
    ensures
        is_ready_tag(f.tag),
        f.payload is None,
{
    ToMainFrame { tag: Tag::Text("ready".to_owned()), payload: None }
}

/// A payload frame bound for the main thread.
pub fn main_payload_frame<P>(p: P) -> (f: ToMainFrame<P>)
    ensures
        f.tag == Tag::Null,
        f.payload == Some(p),
{
    ToMainFrame { tag: Tag::Null, payload: Some(p) }
}

/// A payload frame bound for the worker.
pub fn worker_payload_frame<T, P>(p: P) -> (f: ToWorkerFrame<T, P>)
    ensures
        f.transfer is None,
        f.payload == Some(p),
{
    ToWorkerFrame { transfer: None, payload: Some(p) }
}

/// The one frame that hands the canvas over to the worker.
pub fn canvas_frame<T, P>(canvas: T) -> (f: ToWorkerFrame<T, P>)
    ensures
        f.transfer == Some(canvas),
        f.payload is None,
{
    ToWorkerFrame { transfer: Some(canvas), payload: None }
}

/// Frame an event captured on the main thread for relay to the worker, if
/// the handler produced one.
pub fn relay_frame<T, P>(val: Option<P>) -> (r: Option<ToWorkerFrame<T, P>>)
    ensures
        match val {
            Some(p) => r == Some(ToWorkerFrame::<T, P> { transfer: None, payload: Some(p) }),
            None => r is None,
        },
{
    match val {
        Some(p) => Some(ToWorkerFrame { transfer: None, payload: Some(p) }),
        None => None,
    }
}

/// What the main-thread listener does with one frame from the worker.
#[derive(Debug, Clone, PartialEq)]
pub enum MainAction<P> {
    /// Wake whoever is waiting for the worker's readiness announcement.
    SignalReady,
    /// Hand the payload to the application.
    Forward(P),
    /// Drop the frame.
    Ignore,
}

/// One step of the main-thread listener: from whether the readiness signal is
/// still pending and the incoming frame, to the new pending flag and the
/// action taken.
pub open spec fn main_step<P>(ready_pending: bool, frame: ToMainFrame<P>) -> (bool, MainAction<
    P,
>) {
    match frame.tag {
        Tag::Null => (ready_pending, MainAction::Forward(frame.payload.unwrap())),
        Tag::Text(s) => if s@ == "ready"@ {
            if ready_pending {
                (false, MainAction::SignalReady)
            } else {
                (false, MainAction::Ignore)
            }
        } else {
            (ready_pending, MainAction::Ignore)
        },
        Tag::Other => (ready_pending, MainAction::Ignore),
    }
}

/// The main thread's message listener.  It holds the readiness signal until
/// the worker announces itself, then forwards payloads.
pub struct MainListener {
    ready_pending: bool,
}

impl MainListener {
    /// Whether the readiness signal has not been fired yet.
    pub closed spec fn ready_pending(&self) -> bool {
        self.ready_pending
    }

    pub fn new() -> (l: MainListener)
        ensures
            l.ready_pending(),
    {
        MainListener { ready_pending: true }
    }

    /// Classify one incoming frame exactly as `main_step` says.  A frame
    /// with an empty control slot must carry a payload; the channel never
    /// sends one without.
    pub fn on_message<P>(&mut self, frame: ToMainFrame<P>) -> (a: MainAction<P>)
        requires
            frame.tag == Tag::Null ==> frame.payload is Some,
        ensures
            ({
                let (pending2, act) = main_step(old(self).ready_pending(), frame);
                final(self).ready_pending() == pending2 && a == act
            }),
    {
        let ToMainFrame { tag, payload } = frame;
        match tag {
            Tag::Null => MainAction::Forward(payload.unwrap()),
            Tag::Text(s) => {
                let ready: String = "ready".to_owned();
                if s == ready {
                    if self.ready_pending {
                        self.ready_pending = false;
                        MainAction::SignalReady
                    } else {
                        MainAction::Ignore
                    }
                } else {
                    MainAction::Ignore
                }
            },
            Tag::Other => MainAction::Ignore,
        }
    }
}

/// What the worker-side listener hands on after one frame: the canvas, if
/// this frame delivered it, and the payload, if the frame carried one.
#[derive(Debug, Clone, PartialEq)]
pub struct WorkerDelivery<T, P> {
    pub canvas: Option<T>,
    pub forward: Option<P>,
}

/// One step of the worker-side listener: from whether the canvas is still
/// awaited and the incoming frame, to the new flag and what is handed on.
pub open spec fn worker_step<T, P>(canvas_pending: bool, frame: ToWorkerFrame<T, P>) -> (
    bool,
    WorkerDelivery<T, P>,
) {
    (
        canvas_pending && frame.transfer is None,
        WorkerDelivery {
            canvas: if canvas_pending && frame.transfer is Some {
                frame.transfer
            } else {
                None
            },
            forward: frame.payload,
        },
    )
}

/// The worker's message listener.  It waits for the one frame that carries
/// the canvas and forwards every payload.
pub struct WorkerListener {
    canvas_pending: bool,
}

impl WorkerListener {
    /// Whether the canvas has not been delivered yet.
    pub closed spec fn canvas_pending(&self) -> bool {
        self.canvas_pending
    }

    pub fn new() -> (l: WorkerListener)
        ensures
            l.canvas_pending(),
    {
        WorkerListener { canvas_pending: true }
    }

    /// Classify one incoming frame exactly as `worker_step` says.
    pub fn on_message<T, P>(&mut self, frame: ToWorkerFrame<T, P>) -> (d: WorkerDelivery<T, P>)
        ensures
            ({
                let (pending2, del) = worker_step(old(self).canvas_pending(), frame);
                final(self).canvas_pending() == pending2 && d == del
            }),
    {
        let ToWorkerFrame { transfer, payload } = frame;
        let canvas = match transfer {
            Some(c) => {
                if self.canvas_pending {
                    self.canvas_pending = false;
                    Some(c)
                } else {
                    None
                }
            },
            None => None,
        };
        WorkerDelivery { canvas, forward: payload }
    }
}

/// The main thread's half of the startup handshake.
#[derive(Debug, Clone, Copy, PartialEq, Eq, Structural)]
pub enum MainPhase {
    /// Waiting for the worker to announce readiness.
    AwaitingReady,
    /// The canvas frame has been posted; the channel is in steady state.
    CanvasSent,
}

/// Drives the main thread through the handshake: the canvas frame may be
/// produced only once, after the readiness signal.
pub struct MainHandshake {
    phase: MainPhase,
}

impl MainHandshake {
    pub closed spec fn phase(&self) -> MainPhase {
        self.phase
    }

    pub fn new() -> (h: MainHandshake)
        ensures
            h.phase() == MainPhase::AwaitingReady,
    {
        MainHandshake { phase: MainPhase::AwaitingReady }
    }

    /// The worker announced readiness: produce the one frame that transfers
    /// the canvas.
    pub fn on_ready<T, P>(&mut self, canvas: T) -> (f: ToWorkerFrame<T, P>)
        requires
            old(self).phase() == MainPhase::AwaitingReady,
        ensures
            final(self).phase() == MainPhase::CanvasSent,
            f.transfer == Some(canvas),
            f.payload is None,
    {
        self.phase = MainPhase::CanvasSent;
        canvas_frame(canvas)
    }
}

/// The worker's half of the startup handshake.
#[derive(Debug, Clone, Copy, PartialEq, Eq, Structural)]
pub enum WorkerPhase {
    /// Nothing announced yet.
    Start,
    /// The readiness frame has been posted; waiting for the canvas.
    ReadyAnnounced,
    /// The canvas arrived; the channel is in steady state.
    Running,
}

/// Drives the worker through the handshake: announce once, then wait for the
/// canvas.
pub struct WorkerHandshake {
    phase: WorkerPhase,
}

impl WorkerHandshake {
    pub closed spec fn phase(&self) -> WorkerPhase {
        self.phase
    }

    pub fn new() -> (h: WorkerHandshake)
        ensures
            h.phase() == WorkerPhase::Start,
    {
        WorkerHandshake { phase: WorkerPhase::Start }
    }

    /// Produce the readiness announcement; allowed exactly once.
    pub fn announce<P>(&mut self) -> (f: ToMainFrame<P>)
        requires
            old(self).phase() == WorkerPhase::Start,
        ensures
            final(self).phase() == WorkerPhase::ReadyAnnounced,
            is_ready_tag(f.tag),
            f.payload is None,
    {
        self.phase = WorkerPhase::ReadyAnnounced;
        ready_frame()
    }

    /// The canvas arrived; the handshake is complete.
    pub fn on_canvas<T>(&mut self, canvas: T) -> (c: T)
        requires
            old(self).phase() == WorkerPhase::ReadyAnnounced,
        ensures
            final(self).phase() == WorkerPhase::Running,
            c == canvas,
    {
        self.phase = WorkerPhase::Running;
        canvas
    }
}

/// Run the main listener over a whole sequence of frames, oldest first.
pub open spec fn run_main<P>(pending: bool, frames: Seq<ToMainFrame<P>>) -> (bool, Seq<
    MainAction<P>,
>)
    decreases frames.len(),
{
    if frames.len() == 0 {
        (pending, Seq::empty())
    } else {
        let (p1, a) = main_step(pending, frames[0]);
        let (p2, rest) = run_main(p1, frames.drop_first());
        (p2, seq![a] + rest)
    }
}

/// How many actions in a run fired the readiness signal.
pub open spec fn count_ready<P>(acts: Seq<MainAction<P>>) -> int
    decreases acts.len(),
{
    if acts.len() == 0 {
        0
    } else {
        (if acts[0] is SignalReady {
            1int
        } else {
            0int
        }) + count_ready(acts.drop_first())
    }
}

/// However many frames arrive, the readiness signal fires at most once, and
/// never once it has already been taken.
pub proof fn lemma_ready_signaled_at_most_once<P>(pending: bool, frames: Seq<ToMainFrame<P>>)
    ensures
        ({
            let (p2, acts) = run_main(pending, frames);
            0 <= count_ready(acts) <= (if pending {
                1int
            } else {
                0int
            }) && p2 == (pending && count_ready(acts) == 0)
        }),
    decreases frames.len(),
{
    if frames.len() == 0 {
    } else {
        let (p1, a) = main_step(pending, frames[0]);
        let (p2, rest) = run_main(p1, frames.drop_first());
        lemma_ready_signaled_at_most_once(p1, frames.drop_first());
        assert(run_main(pending, frames) == (p2, seq![a] + rest));
        assert((seq![a] + rest).drop_first() =~= rest);
        assert((seq![a] + rest)[0] == a);
        assert(count_ready(seq![a] + rest) == (if a is SignalReady {
            1int
        } else {
            0int
        }) + count_ready(rest));
    }
}

/// Every frame gets exactly one action, and a payload frame's action is to
/// forward that payload, in arrival order.
pub proof fn lemma_main_forwards_in_order<P>(pending: bool, frames: Seq<ToMainFrame<P>>)
    ensures
        ({
            let (p2, acts) = run_main(pending, frames);
            acts.len() == frames.len() && (forall|i: int|
                0 <= i < frames.len() && (#[trigger] frames[i]).tag is Null ==> acts[i]
                    == MainAction::Forward(frames[i].payload.unwrap()))
        }),
    decreases frames.len(),
{
    if frames.len() == 0 {
    } else {
        let (p1, a) = main_step(pending, frames[0]);
        let (p2, rest) = run_main(p1, frames.drop_first());
        lemma_main_forwards_in_order(p1, frames.drop_first());
        assert((seq![a] + rest).drop_first() =~= rest);
        assert forall|i: int|
            0 <= i < frames.len() && (#[trigger] frames[i]).tag is Null implies (seq![a] + rest)[i]
            == MainAction::Forward(frames[i].payload.unwrap()) by {
            if i > 0 {
                assert(frames.drop_first()[i - 1] == frames[i]);
            }
        }
    }
}

/// Run the worker listener over a whole sequence of frames, oldest first.
pub open spec fn run_worker<T, P>(pending: bool, frames: Seq<ToWorkerFrame<T, P>>) -> (
    bool,
    Seq<WorkerDelivery<T, P>>,
)
    decreases frames.len(),
{
    if frames.len() == 0 {
        (pending, Seq::empty())
    } else {
        let (p1, d) = worker_step(pending, frames[0]);
        let (p2, rest) = run_worker(p1, frames.drop_first());
        (p2, seq![d] + rest)
    }
}

/// How many deliveries in a run handed the canvas over.
pub open spec fn count_delivered<T, P>(ds: Seq<WorkerDelivery<T, P>>) -> int
    decreases ds.len(),
{
    if ds.len() == 0 {
        0
    } else {
        (if ds[0].canvas is Some {
            1int
        } else {
            0int
        }) + count_delivered(ds.drop_first())
    }
}

/// However many frames arrive, the canvas is delivered at most once, and
/// never once it has already been taken.
pub proof fn lemma_canvas_delivered_at_most_once<T, P>(
    pending: bool,
    frames: Seq<ToWorkerFrame<T, P>>,
)
    ensures
        ({
            let (p2, ds) = run_worker(pending, frames);
            0 <= count_delivered(ds) <= (if pending {
                1int
            } else {
                0int
            }) && p2 == (pending && count_delivered(ds) == 0)
        }),
    decreases frames.len(),
{
    if frames.len() == 0 {
    } else {
        let (p1, d) = worker_step(pending, frames[0]);
        let (p2, rest) = run_worker(p1, frames.drop_first());
        lemma_canvas_delivered_at_most_once(p1, frames.drop_first());
        assert(run_worker(pending, frames) == (p2, seq![d] + rest));
        assert((seq![d] + rest).drop_first() =~= rest);
        assert((seq![d] + rest)[0] == d);
        assert(count_delivered(seq![d] + rest) == (if d.canvas is Some {
            1int
        } else {
            0int
        }) + count_delivered(rest));
    }
}

/// Every frame gets exactly one delivery, and its payload slot is handed on
/// unchanged, in arrival order.
pub proof fn lemma_worker_forwards_in_order<T, P>(pending: bool, frames: Seq<ToWorkerFrame<T, P>>)
    ensures
        ({
            let (p2, ds) = run_worker(pending, frames);
            ds.len() == frames.len() && (forall|i: int|
                0 <= i < frames.len() ==> (#[trigger] ds[i]).forward == frames[i].payload)
        }),
    decreases frames.len(),
{
    if frames.len() == 0 {
    } else {
        let (p1, d) = worker_step(pending, frames[0]);
        let (p2, rest) = run_worker(p1, frames.drop_first());
        lemma_worker_forwards_in_order(p1, frames.drop_first());
        assert((seq![d] + rest).drop_first() =~= rest);
        assert forall|i: int| 0 <= i < frames.len() implies (#[trigger] (seq![d] + rest)[i]).forward
            == frames[i].payload by {
            if i > 0 {
                assert(frames.drop_first()[i - 1] == frames[i]);
            }
        }
    }
}

/// A readiness frame always wakes a fresh main listener.
pub proof fn lemma_ready_frame_signals<P>(frame: ToMainFrame<P>)
    requires
        is_ready_tag(frame.tag),
    ensures
        main_step::<P>(true, frame) == (false, MainAction::<P>::SignalReady),
{
}

/// A payload frame is always forwarded, whatever the listener's state.
pub proof fn lemma_payload_frame_forwarded<P>(pending: bool, frame: ToMainFrame<P>, p: P)
    requires
        frame.tag is Null,
        frame.payload == Some(p),
    ensures
        main_step(pending, frame) == (pending, MainAction::Forward(p)),
{
}

/// The canvas frame is delivered to a worker that still awaits it.
pub proof fn lemma_canvas_frame_delivered<T, P>(frame: ToWorkerFrame<T, P>, c: T)
    requires
        frame.transfer == Some(c),
        frame.payload is None,
    ensures
        worker_step(true, frame) == (false, (WorkerDelivery { canvas: Some(c), forward: None::<P> })),
{
}

} // verus!
