use shogo::protocol::{
    canvas_frame, main_payload_frame, ready_frame, relay_frame, worker_payload_frame, MainAction,
    MainHandshake, MainListener, Tag, ToMainFrame, ToWorkerFrame, WorkerHandshake, WorkerListener,
};

#[test]
fn ready_frame_carries_the_announcement() {
    let f: ToMainFrame<i32> = ready_frame();
    assert!(matches!(f.tag, Tag::Text(ref s) if s == "ready"));
    assert!(f.payload.is_none());
}

#[test]
fn ready_signal_fires_once_and_only_once() {
    let mut l = MainListener::new();
    let first = l.on_message::<i32>(ready_frame());
    assert_eq!(first, MainAction::SignalReady);
    let second = l.on_message::<i32>(ready_frame());
    assert_eq!(second, MainAction::Ignore);
}

#[test]
fn payloads_are_forwarded_to_the_main_thread() {
    let mut l = MainListener::new();
    let a = l.on_message(main_payload_frame(42));
    assert_eq!(a, MainAction::Forward(42));
    // forwarding does not consume the readiness signal.
    let b = l.on_message::<i32>(ready_frame());
    assert_eq!(b, MainAction::SignalReady);
}

#[test]
fn unknown_tags_are_ignored() {
    let mut l = MainListener::new();
    let a = l.on_message::<i32>(ToMainFrame { tag: Tag::Other, payload: None });
    assert_eq!(a, MainAction::Ignore);
    let b = l.on_message::<i32>(ToMainFrame {
        tag: Tag::Text("pending".to_owned()),
        payload: None,
    });
    assert_eq!(b, MainAction::Ignore);
    // the signal is still there for the real announcement.
    assert_eq!(l.on_message::<i32>(ready_frame()), MainAction::SignalReady);
}

#[test]
fn canvas_is_delivered_once_and_only_once() {
    let mut l = WorkerListener::new();
    let d = l.on_message::<&str, i32>(canvas_frame("the canvas"));
    assert_eq!(d.canvas, Some("the canvas"));
    assert_eq!(d.forward, None);
    let d2 = l.on_message::<&str, i32>(canvas_frame("an impostor"));
    assert_eq!(d2.canvas, None);
}

#[test]
fn worker_payloads_are_forwarded() {
    let mut l = WorkerListener::new();
    let d = l.on_message::<&str, i32>(worker_payload_frame(7));
    assert_eq!(d.canvas, None);
    assert_eq!(d.forward, Some(7));
    // a payload frame does not use up the canvas slot.
    let d2 = l.on_message::<&str, i32>(canvas_frame("the canvas"));
    assert_eq!(d2.canvas, Some("the canvas"));
}

#[test]
fn relay_wraps_handler_output() {
    let some: Option<ToWorkerFrame<&str, i32>> = relay_frame(Some(3));
    let f = some.unwrap();
    assert!(f.transfer.is_none());
    assert_eq!(f.payload, Some(3));
    let none: Option<ToWorkerFrame<&str, i32>> = relay_frame(None);
    assert!(none.is_none());
}

#[test]
fn main_handshake_transfers_the_canvas_after_ready() {
    let mut h = MainHandshake::new();
    let f: ToWorkerFrame<&str, i32> = h.on_ready("the canvas");
    assert_eq!(f.transfer, Some("the canvas"));
    assert!(f.payload.is_none());
}

#[test]
fn worker_handshake_announces_then_accepts_the_canvas() {
    let mut h = WorkerHandshake::new();
    let f: ToMainFrame<i32> = h.announce();
    assert!(matches!(f.tag, Tag::Text(ref s) if s == "ready"));
    assert!(f.payload.is_none());
    let canvas = h.on_canvas("the canvas");
    assert_eq!(canvas, "the canvas");
}
