//! The bounded, ordered, single-consumer queue of build tasks.
//!
//! The watcher callback enqueues without blocking: when the queue is full,
//! the newest request is dropped rather than holding up the filesystem
//! callback. The consumer dequeues strictly in order and runs each build to
//! completion before taking the next task, so at most one build is ever in
//! flight.

use vstd::prelude::*;

verus! {

/// A unit of work for the development server. Building is the only kind.
#[derive(Clone, Copy, PartialEq, Eq, Structural, Debug)]
pub enum Task {
    Build,
}

/// A bounded FIFO queue of tasks.
pub struct TaskQueue {
    /// The queued tasks, front first.
    pub items: Vec<Task>,
    /// The bound: a task offered to a queue already holding this many is
    /// dropped.
    pub capacity: usize,
}

impl TaskQueue {
    /// The queue never holds more than its capacity.
    pub open spec fn wf(self) -> bool {
        self.items@.len() <= self.capacity
    }

    /// An empty queue with the given capacity.
    pub fn new(capacity: usize) -> (q: TaskQueue)
        ensures
            q.wf(),
            q.items@ == Seq::<Task>::empty(),
            q.capacity == capacity,
    {
        TaskQueue { items: Vec::new(), capacity }
    }

    /// How many tasks are queued.
    pub fn len(&self) -> (n: usize)
        ensures
            n == self.items@.len(),
    {
        self.items.len()
    }

    /// Offers a task: appended at the back when there is room, dropped (and
    /// reported as not accepted) when the queue is full.
    pub fn try_enqueue(&mut self, t: Task) -> (accepted: bool)
        requires
            old(self).wf(),
        ensures
            final(self).wf(),
            final(self).capacity == old(self).capacity,
            accepted == (old(self).items@.len() < old(self).capacity),
            accepted ==> final(self).items@ == old(self).items@.push(t),
            !accepted ==> final(self).items@ == old(self).items@,
    {
        if self.items.len() < self.capacity {
            self.items.push(t);
            true
        } else {
            false
        }
    }

    /// Takes the task at the front, if any.
    pub fn dequeue(&mut self) -> (r: Option<Task>)
        requires
            old(self).wf(),
        ensures
            final(self).wf(),
            final(self).capacity == old(self).capacity,
            old(self).items@.len() == 0 ==> r is None && final(self).items@ == old(self).items@,
            old(self).items@.len() > 0 ==> r == Some(old(self).items@[0]) && final(self).items@
                == old(self).items@.skip(1),
    {
        if self.items.len() == 0 {
            None
        } else {
            let t = self.items.remove(0);
            proof {
                assert(self.items@ =~= old(self).items@.skip(1));
            }
            Some(t)
        }
    }
}

/// The consumer side: the queue together with whether a build is in flight.
pub struct BuildLoop {
    /// The pending tasks.
    pub queue: TaskQueue,
    /// A build is currently running.
    pub building: bool,
}

/// What the consumer does next.
pub enum ConsumerAction {
    /// Run the given task to completion, then report it finished.
    StartBuild(Task),
    /// Nothing to do: either a build is in flight or the queue is empty.
    Wait,
}

impl BuildLoop {
    /// The loop's queue is well formed.
    pub open spec fn wf(self) -> bool {
        self.queue.wf()
    }

    /// A fresh consumer loop: empty queue, nothing in flight.
    pub fn new(capacity: usize) -> (r: BuildLoop)
        ensures
            r.wf(),
            r.queue.items@ == Seq::<Task>::empty(),
            r.queue.capacity == capacity,
            !r.building,
    {
        BuildLoop { queue: TaskQueue::new(capacity), building: false }
    }

    /// The watcher's side: offers one build task, without blocking; a full
    /// queue drops the request.
    pub fn enqueue_build(&mut self) -> (accepted: bool)
        requires
            old(self).wf(),
        ensures
            final(self).wf(),
            final(self).building == old(self).building,
            final(self).queue.capacity == old(self).queue.capacity,
            accepted == (old(self).queue.items@.len() < old(self).queue.capacity),
            accepted ==> final(self).queue.items@ == old(self).queue.items@.push(Task::Build),
            !accepted ==> final(self).queue.items@ == old(self).queue.items@,
    {
        self.queue.try_enqueue(Task::Build)
    }

    /// The consumer's side: starts the front task only when no build is in
    /// flight; otherwise waits.
    pub fn next_action(&mut self) -> (a: ConsumerAction)
        requires
            old(self).wf(),
        ensures
            final(self).wf(),
            final(self).queue.capacity == old(self).queue.capacity,
            old(self).building ==> a is Wait && *final(self) == *old(self),
            !old(self).building && old(self).queue.items@.len() == 0 ==> a is Wait
                && !final(self).building && final(self).queue.items@ == old(self).queue.items@,
            !old(self).building && old(self).queue.items@.len() > 0 ==> a == ConsumerAction::StartBuild(
                old(self).queue.items@[0],
            ) && final(self).building && final(self).queue.items@ == old(self).queue.items@.skip(1),
    {
        if self.building {
            return ConsumerAction::Wait;
        }
        match self.queue.dequeue() {
            None => ConsumerAction::Wait,
            Some(t) => {
                self.building = true;
                ConsumerAction::StartBuild(t)
            },
        }
    }

    /// The consumer reports the in-flight build finished.
    pub fn finish_build(&mut self)
        requires
            old(self).wf(),
            old(self).building,
        ensures
            final(self).wf(),
            !final(self).building,
            final(self).queue == old(self).queue,
    {
        self.building = false;
    }
}

/// The consumer loop's state, at the specification level.
pub struct LoopModel {
    /// The queued tasks, front first.
    pub queued: Seq<Task>,
    /// A build is in flight.
    pub building: bool,
    /// The queue's bound.
    pub cap: int,
}

/// One happening the consumer loop reacts to.
pub enum LoopEvent {
    /// The watcher offers a build task.
    Arrive,
    /// The consumer looks for work.
    Poll,
    /// The in-flight build finishes.
    Done,
}

/// One step of the consumer loop; the flag reports whether a build started
/// at this step.
pub open spec fn loop_step(s: LoopModel, e: LoopEvent) -> (LoopModel, bool) {
    match e {
        LoopEvent::Arrive => (
            LoopModel {
                queued: if s.queued.len() < s.cap {
                    s.queued.push(Task::Build)
                } else {
                    s.queued
                },
                ..s
            },
            false,
        ),
        LoopEvent::Poll => if !s.building && s.queued.len() > 0 {
            (LoopModel { queued: s.queued.skip(1), building: true, ..s }, true)
        } else {
            (s, false)
        },
        LoopEvent::Done => (LoopModel { building: false, ..s }, false),
    }
}

/// The loop run over a whole event sequence.
pub open spec fn loop_run(s: LoopModel, evs: Seq<LoopEvent>) -> LoopModel
    decreases evs.len(),
{
    if evs.len() == 0 {
        s
    } else {
        loop_run(loop_step(s, evs[0]).0, evs.skip(1))
    }
}

/// How many builds start during the run.
pub open spec fn starts_in(s: LoopModel, evs: Seq<LoopEvent>) -> int
    decreases evs.len(),
{
    if evs.len() == 0 {
        0
    } else {
        (if loop_step(s, evs[0]).1 {
            1int
        } else {
            0int
        }) + starts_in(loop_step(s, evs[0]).0, evs.skip(1))
    }
}

/// At most one build runs at a time: while a build is in flight, no event
/// sequence free of its completion starts another build, however many tasks
/// arrive or polls run meanwhile.
pub proof fn lemma_at_most_one_build(s: LoopModel, evs: Seq<LoopEvent>)
    requires
        s.building,
        forall|i: int| 0 <= i < evs.len() ==> evs[i] != LoopEvent::Done,
    ensures
        starts_in(s, evs) == 0,
        loop_run(s, evs).building,
    decreases evs.len(),
{
    if evs.len() == 0 {
    } else {
        assert(evs[0] != LoopEvent::Done);
        let s1 = loop_step(s, evs[0]).0;
        assert(s1.building);
        assert(forall|i: int|
            0 <= i < evs.skip(1).len() ==> evs.skip(1)[i] != LoopEvent::Done);
        lemma_at_most_one_build(s1, evs.skip(1));
    }
}

} // verus!
