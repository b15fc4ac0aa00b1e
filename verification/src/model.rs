//! What one capture records, as a function of the task's suspension
//! structure.
//!
//! A suspended task is, at any instant, a tree of call frames: each frame
//! either awaits one sub-computation, fans out into concurrently awaited
//! sub-computations, has already finished, or is a leaf suspension point —
//! the innermost place that actually parks and stores a wake-up capability.
//! During a capture step every live leaf clones the substituted wake
//! callback and thereby records one frame: the path of call frames from the
//! root down to that leaf. This module gives that structure a type,
//! [`TaskState`], defines what a capture of it records, [`leaf_paths`], and
//! proves the laws the capture obeys: one recorded frame per live leaf, a
//! single path in call order for a single chain, side-by-side branches for
//! a fan-out, and identical results for repeated captures of an unchanged
//! task.

use vstd::prelude::*;

use crate::waker::{clone_callback, Backing, CaptureScope};

verus! {

/// The suspension structure of a task at one instant, as a capture step
/// sees it. Frames are identified by labels; a fan-out of more than two
/// sub-computations nests.
pub enum TaskState {
    /// A live leaf suspension point: the innermost place that parks,
    /// storing a wake-up capability for later.
    Leaf,
    /// A call frame, identified by its label, awaiting one sub-computation.
    Call(u64, Box<TaskState>),
    /// Two concurrently awaited sub-computations.
    Fork(Box<TaskState>, Box<TaskState>),
    /// A finished sub-computation: nothing below it is suspended.
    Done,
}

/// The frames one capture of the task records: one per live leaf suspension
/// point, in drive order (left to right), each frame holding the labels of
/// the call frames from the root down to that leaf.
pub open spec fn leaf_paths(t: TaskState) -> Seq<Seq<u64>>
    decreases t,
{
    match t {
        TaskState::Leaf => seq![Seq::<u64>::empty()],
        TaskState::Call(l, sub) => leaf_paths(*sub).map(|i: int, p: Seq<u64>| seq![l] + p),
        TaskState::Fork(a, b) => leaf_paths(*a) + leaf_paths(*b),
        TaskState::Done => Seq::<Seq<u64>>::empty(),
    }
}

/// How many live leaf suspension points the task has.
pub open spec fn leaf_count(t: TaskState) -> nat
    decreases t,
{
    match t {
        TaskState::Leaf => 1,
        TaskState::Call(l, sub) => leaf_count(*sub),
        TaskState::Fork(a, b) => leaf_count(*a) + leaf_count(*b),
        TaskState::Done => 0,
    }
}

/// Whether the task is a single chain of nested suspensions ending in a
/// live leaf.
pub open spec fn is_chain(t: TaskState) -> bool
    decreases t,
{
    match t {
        TaskState::Leaf => true,
        TaskState::Call(l, sub) => is_chain(*sub),
        _ => false,
    }
}

/// The labels along a chain, outermost call first.
pub open spec fn chain_labels(t: TaskState) -> Seq<u64>
    decreases t,
{
    match t {
        TaskState::Call(l, sub) => seq![l] + chain_labels(*sub),
        _ => Seq::<u64>::empty(),
    }
}

/// The label paths a vector of recorded frames stands for.
pub open spec fn frames_view(v: Seq<Vec<u64>>) -> Seq<Seq<u64>> {
    Seq::new(v.len(), |i: int| v[i]@)
}

/// Whether the task is still suspended, that is, has at least one live
/// leaf; a task with none has nothing left to wait on and its drive step
/// reports it finished.
pub fn has_live_leaf(t: &TaskState) -> (r: bool)
    ensures
        r == (leaf_count(*t) > 0),
    decreases *t,
{
    match t {
        TaskState::Leaf => true,
        TaskState::Call(_, sub) => has_live_leaf(&**sub),
        TaskState::Fork(a, b) => has_live_leaf(&**a) || has_live_leaf(&**b),
        TaskState::Done => false,
    }
}

/// One capture: every live leaf suspension point records one frame — the
/// path of labels from the root down to itself — and the frames come out
/// in drive order.
pub fn capture(t: &TaskState) -> (frames: Vec<Vec<u64>>)
    ensures
        frames_view(frames@) == leaf_paths(*t),
    decreases *t,
{
    match t {
        TaskState::Leaf => {
            let mut frames: Vec<Vec<u64>> = Vec::new();
            frames.push(Vec::new());
            proof {
                assert(frames_view(frames@) =~~= leaf_paths(*t));
            }
            frames
        },
        TaskState::Call(l, sub) => {
            let sub_frames = capture(&**sub);
            let mut frames: Vec<Vec<u64>> = Vec::new();
            let mut i: usize = 0;
            while i < sub_frames.len()
                invariant
                    i <= sub_frames.len(),
                    frames_view(sub_frames@) == leaf_paths(**sub),
                    frames.len() == i,
                    forall|k: int| 0 <= k < i ==> frames@[k]@ == seq![*l] + sub_frames@[k]@,
                decreases sub_frames.len() - i,
            {
                let mut path: Vec<u64> = Vec::new();
                path.push(*l);
                let mut j: usize = 0;
                while j < sub_frames[i].len()
                    invariant
                        i < sub_frames.len(),
                        j <= sub_frames@[i as int]@.len(),
                        path@ == seq![*l] + sub_frames@[i as int]@.take(j as int),
                    decreases sub_frames@[i as int]@.len() - j,
                {
                    path.push(sub_frames[i][j]);
                    j = j + 1;
                }
                proof {
                    assert(sub_frames@[i as int]@.take(sub_frames@[i as int]@.len() as int)
                        =~= sub_frames@[i as int]@);
                }
                frames.push(path);
                i = i + 1;
            }
            proof {
                assert(frames_view(frames@) =~~= leaf_paths(*t));
            }
            frames
        },
        TaskState::Fork(a, b) => {
            let mut frames = capture(&**a);
            let mut more = capture(&**b);
            frames.append(&mut more);
            proof {
                assert(frames_view(frames@) =~~= leaf_paths(*t));
            }
            frames
        },
        TaskState::Done => {
            let frames: Vec<Vec<u64>> = Vec::new();
            proof {
                assert(frames_view(frames@) =~~= leaf_paths(*t));
            }
            frames
        },
    }
}

/// The recording side of a capture step, seen through the substituted wake
/// callback: every live leaf suspension point stores a wake-up capability
/// by cloning the callback handed to it — exactly once per leaf — and each
/// such clone records one frame in the open scope. Intermediate call
/// frames never touch the callback, so they record nothing; a fan-out
/// reaches its leaves left to right within the same step.
pub fn record_leaves(t: &TaskState, scope: &mut CaptureScope)
    requires
        old(scope).recorded + leaf_count(*t) <= u64::MAX,
    ensures
        final(scope).recorded == old(scope).recorded + leaf_count(*t),
    decreases *t,
{
    match t {
        TaskState::Leaf => {
            // The leaf keeps the clone as its wake-up capability; by the
            // substitution's contract the clone is ambient-backed.
            let _stored = clone_callback(&Backing::Substituted, scope);
        },
        TaskState::Call(_, sub) => record_leaves(&**sub, scope),
        TaskState::Fork(a, b) => {
            record_leaves(&**a, scope);
            record_leaves(&**b, scope);
        },
        TaskState::Done => {},
    }
}

/// The outcome of one drive step of the wrapper.
pub struct DriveOutcome {
    /// Whether the step found the task finished: no live leaf was left.
    pub finished: bool,
    /// What the step delivered: one trace per request that was pending at
    /// its start, in the requests' arrival order — and so nothing at all
    /// when none was pending.
    pub traces: Vec<Vec<Vec<u64>>>,
}

/// One drive step, servicing the `requests_pending` capture requests that
/// were queued when the step began. With none pending the task is driven
/// normally and nothing whatsoever is recorded; otherwise the task is
/// driven once under the substituted wake callback and every pending
/// request is answered, in arrival order, with the frames of the task's
/// live leaves. Requests arriving after the step has begun wait for the
/// next step. The step itself never suspends and leaves the task's
/// structure as it found it.
pub fn drive(t: &TaskState, requests_pending: usize) -> (r: DriveOutcome)
    ensures
        r.finished == (leaf_count(*t) == 0),
        r.traces@.len() == requests_pending,
        forall|i: int|
            0 <= i < r.traces@.len() ==> frames_view(r.traces@[i]@) == leaf_paths(*t),
{
    let finished = !has_live_leaf(t);
    let mut traces: Vec<Vec<Vec<u64>>> = Vec::new();
    let mut k: usize = 0;
    while k < requests_pending
        invariant
            k <= requests_pending,
            traces@.len() == k,
            forall|i: int|
                0 <= i < traces@.len() ==> frames_view(traces@[i]@) == leaf_paths(*t),
        decreases requests_pending - k,
    {
        traces.push(capture(t));
        k = k + 1;
    }
    DriveOutcome { finished, traces }
}

/// Law: one capture records exactly one frame per live leaf suspension
/// point — however deep or fanned-out the task's call graph is, every live
/// leaf contributes, and nothing else does.
pub proof fn lemma_one_frame_per_leaf(t: TaskState)
    ensures
        leaf_paths(t).len() == leaf_count(t),
    decreases t,
{
    match t {
        TaskState::Leaf => {},
        TaskState::Call(l, sub) => {
            lemma_one_frame_per_leaf(*sub);
        },
        TaskState::Fork(a, b) => {
            lemma_one_frame_per_leaf(*a);
            lemma_one_frame_per_leaf(*b);
        },
        TaskState::Done => {},
    }
}

/// Law: a task that is a single chain of nested suspensions yields exactly
/// one recorded frame — a single root-to-leaf path — and that path holds
/// the chain's labels in call order.
pub proof fn lemma_chain_single_path(t: TaskState)
    requires
        is_chain(t),
    ensures
        leaf_paths(t).len() == 1,
        leaf_paths(t)[0] == chain_labels(t),
    decreases t,
{
    match t {
        TaskState::Leaf => {
            assert(leaf_paths(t)[0] =~= chain_labels(t));
        },
        TaskState::Call(l, sub) => {
            lemma_chain_single_path(*sub);
            assert(leaf_paths(t)[0] == seq![l] + leaf_paths(*sub)[0]);
        },
        _ => {},
    }
}

/// Law: a task that fans out records the two sides' frames side by side —
/// the fan-out's root has one branch per live leaf, and each branch is that
/// sub-computation's own call chain, unchanged.
pub proof fn lemma_fork_branches(t: TaskState)
    requires
        t is Fork,
    ensures
        leaf_paths(t) == leaf_paths(*t->Fork_0) + leaf_paths(*t->Fork_1),
        leaf_paths(t).len() == leaf_count(*t->Fork_0) + leaf_count(*t->Fork_1),
{
    lemma_one_frame_per_leaf(*t->Fork_0);
    lemma_one_frame_per_leaf(*t->Fork_1);
}

/// Law: two captures taken while the task stays suspended in the same
/// state — within one drive step or across successive ones — record
/// identical frames: what a capture yields is a function of the suspension
/// structure alone.
pub proof fn lemma_repeated_capture_identical(
    t: TaskState,
    first: Seq<Seq<u64>>,
    second: Seq<Seq<u64>>,
)
    requires
        first == leaf_paths(t),
        second == leaf_paths(t),
    ensures
        first == second,
{
}

} // verus!
