use std::sync::atomic::{AtomicBool, Ordering};
use std::sync::Arc;
use std::task::{Context, Wake, Waker};

use scoped_trace::Trace;
use tasktrace::{read_reply, traced, Reply};

struct FlagWake {
    woken: AtomicBool,
}

impl FlagWake {
    fn new() -> Arc<FlagWake> {
        Arc::new(FlagWake { woken: AtomicBool::new(false) })
    }
}

impl Wake for FlagWake {
    fn wake(self: Arc<Self>) {
        self.woken.store(true, Ordering::SeqCst);
    }

    fn wake_by_ref(self: &Arc<Self>) {
        self.woken.store(true, Ordering::SeqCst);
    }
}

fn capture_leaf() -> Trace {
    let ((), trace) = Trace::root(|| {
        Trace::leaf();
    });
    trace
}

#[test]
fn request_is_served_and_answer_delivered() {
    let (mut task, handle) = traced(7u8);
    let mut rx = handle.request_backtrace().expect("the task side is alive");
    assert!(matches!(read_reply(&mut rx), Reply::NotYet));

    let wake = FlagWake::new();
    let waker = Waker::from(wake);
    let mut cx = Context::from_waker(&waker);
    let req = task.poll_request(&mut cx).expect("the queued request is observed");
    assert!(req.respond(capture_leaf()));

    match read_reply(&mut rx) {
        Reply::Answer(trace) => {
            // Rendering is the frame-tree capability's own business; the
            // core owes only that it is deterministic for one tree.
            assert_eq!(trace.to_string(), trace.to_string());
        },
        _ => panic!("the delivered tree must be readable from the slot"),
    }
}

#[test]
fn pending_check_finds_nothing_without_a_request() {
    let (mut task, handle) = traced(0u8);
    let wake = FlagWake::new();
    let waker = Waker::from(wake);
    let mut cx = Context::from_waker(&waker);
    assert!(task.poll_request(&mut cx).is_none());
    drop(handle);
}

#[test]
fn issuing_a_request_wakes_the_task() {
    let (mut task, handle) = traced(0u8);
    let wake = FlagWake::new();
    let waker = Waker::from(wake.clone());
    let mut cx = Context::from_waker(&waker);

    // The pending-check leaves the wake callback registered with the queue.
    assert!(task.poll_request(&mut cx).is_none());
    assert!(!wake.woken.load(Ordering::SeqCst));

    // A request arriving afterwards forces a re-drive.
    let _rx = handle.request_backtrace().expect("the task side is alive");
    assert!(wake.woken.load(Ordering::SeqCst));
}

#[test]
fn request_after_task_dropped_resolves_to_no_answer() {
    let (task, handle) = traced(0u8);
    drop(task);
    assert!(handle.request_backtrace().is_none());
}

#[test]
fn outstanding_request_resolves_to_no_answer_when_task_dropped() {
    let (task, handle) = traced(0u8);
    let mut rx = handle.request_backtrace().expect("the task side is alive");
    assert!(matches!(read_reply(&mut rx), Reply::NotYet));
    drop(task);
    assert!(matches!(read_reply(&mut rx), Reply::NoAnswer));
}

#[test]
fn abandoned_request_does_not_fail_the_task() {
    let (mut task, handle) = traced(0u8);
    let rx = handle.request_backtrace().expect("the task side is alive");
    drop(rx);

    let wake = FlagWake::new();
    let waker = Waker::from(wake);
    let mut cx = Context::from_waker(&waker);
    let req = task.poll_request(&mut cx).expect("the queued request is observed");
    // The requester is gone: delivery reports it, and nothing panics.
    assert!(!req.respond(capture_leaf()));
}

#[test]
fn queued_requests_are_drained_in_order_and_each_answered() {
    let (mut task, handle) = traced(0u8);
    let mut first_rx = handle.request_backtrace().expect("the task side is alive");
    let mut second_rx = handle.request_backtrace().expect("the task side is alive");

    let wake = FlagWake::new();
    let waker = Waker::from(wake);
    let mut cx = Context::from_waker(&waker);
    let reqs = task.drain_requests(&mut cx, usize::MAX);
    assert_eq!(reqs.len(), 2);

    let trace = capture_leaf();
    for req in reqs {
        assert!(req.respond(trace.clone()));
    }
    assert!(matches!(read_reply(&mut first_rx), Reply::Answer(_)));
    assert!(matches!(read_reply(&mut second_rx), Reply::Answer(_)));
}

#[test]
fn two_sequential_captures_render_identically() {
    let (mut task, handle) = traced(0u8);
    let wake = FlagWake::new();
    let waker = Waker::from(wake);
    let mut cx = Context::from_waker(&waker);

    let mut first_rx = handle.request_backtrace().expect("the task side is alive");
    let req = task.poll_request(&mut cx).expect("the first request is observed");
    assert!(req.respond(capture_leaf()));

    let mut second_rx = handle.request_backtrace().expect("the task side is alive");
    let req = task.poll_request(&mut cx).expect("the second request is observed");
    assert!(req.respond(capture_leaf()));

    let first = match read_reply(&mut first_rx) {
        Reply::Answer(trace) => trace.to_string(),
        _ => panic!("the first answer must be delivered"),
    };
    let second = match read_reply(&mut second_rx) {
        Reply::Answer(trace) => trace.to_string(),
        _ => panic!("the second answer must be delivered"),
    };
    assert_eq!(first, second);
}

fn fiz_side() {
    Trace::leaf();
}

fn buz_side() {
    Trace::leaf();
}

#[test]
fn fanned_out_leaves_render_for_each_instance() {
    // Two independently wrapped instances of the same fanned-out
    // computation: each capture must show both of its leaves.
    let mut rendered: Vec<String> = Vec::new();
    for _ in 0..2 {
        let (mut task, handle) = traced(0u8);
        let mut rx = handle.request_backtrace().expect("the task side is alive");
        let wake = FlagWake::new();
        let waker = Waker::from(wake);
        let mut cx = Context::from_waker(&waker);
        let req = task.poll_request(&mut cx).expect("the queued request is observed");
        let ((), trace) = Trace::root(|| {
            fiz_side();
            buz_side();
        });
        assert!(req.respond(trace));
        match read_reply(&mut rx) {
            Reply::Answer(trace) => rendered.push(trace.to_string()),
            _ => panic!("the answer must be delivered"),
        }
    }
    // Both instances were fanned out the same way, so the capability owes
    // structurally identical trees for the two of them: same rendering,
    // with one answer delivered per instance.
    assert_eq!(rendered.len(), 2);
    assert_eq!(rendered[0], rendered[1]);
}
