//! Teardown of the background tasks: what to do, in which order, and what to
//! do when a task does not end in time. The tasks themselves run elsewhere;
//! here is decided which action comes next.
use vstd::prelude::*;

verus! {

/// How long to wait for the worker to flush its queue before giving up, in
/// milliseconds. Generous enough for a realistic backlog to reach a responsive
/// collector, bounded so that an unreachable one cannot hold up exit.
pub const HEP_DRAIN_GRACE_MS: u64 = 2_000;

/// How long to wait for the health reporter's last lines before abandoning its
/// task, in milliseconds.
pub const NODE_HEALTH_STOP_GRACE_MS: u64 = 1_000;

/// A step in draining the worker.
#[derive(Debug, Clone, Copy, PartialEq, Eq, Structural)]
pub enum WorkerAction {
    /// Abort the task that mirrors the counters.
    AbortSampler,
    /// Tell the sink to take no more packets and flush what is queued.
    SignalDrain,
    /// Wait for the worker to end, at most so long.
    AwaitWorker { grace_ms: u64 },
    /// Abort the worker.
    AbortWorker,
    /// Mirror the sink's counters for the last time.
    PublishCounters,
    /// Warn that queued packets may be undelivered.
    WarnUndrained { grace_ms: u64 },
}

/// Which of the tasks behind a UDP sink are still held.
#[derive(Debug, Clone, Copy, PartialEq, Eq, Structural)]
pub struct HepWorkerHandle {
    /// The task that sends.
    pub worker: bool,
    /// The task that mirrors the counters.
    pub sampler: bool,
}

/// The wait for the worker, whose outcome decides how the shutdown ends.
#[derive(Debug, Clone, Copy, PartialEq, Eq, Structural)]
pub struct PendingDrain;

/// The steps up to and including the wait for the worker, where there is one.
pub open spec fn steps_before_drain(handle: HepWorkerHandle) -> Seq<WorkerAction> {
    (if handle.sampler {
        seq![WorkerAction::AbortSampler]
    } else {
        Seq::empty()
    }) + (if handle.worker {
        seq![
            WorkerAction::SignalDrain,
            WorkerAction::AwaitWorker { grace_ms: HEP_DRAIN_GRACE_MS },
        ]
    } else {
        seq![WorkerAction::PublishCounters]
    })
}

/// The steps once the worker has drained, or the grace has elapsed.
pub open spec fn steps_after_drain(drained: bool) -> Seq<WorkerAction> {
    if drained {
        seq![WorkerAction::PublishCounters]
    } else {
        seq![
            WorkerAction::AbortWorker,
            WorkerAction::PublishCounters,
            WorkerAction::WarnUndrained { grace_ms: HEP_DRAIN_GRACE_MS },
        ]
    }
}

/// All steps of a shutdown.
pub open spec fn shutdown_steps(handle: HepWorkerHandle, drained: bool) -> Seq<WorkerAction> {
    if handle.worker {
        steps_before_drain(handle) + steps_after_drain(drained)
    } else {
        steps_before_drain(handle)
    }
}

impl HepWorkerHandle {
    /// Begins to drain the worker gracefully. The sampler goes first: the
    /// authoritative last publication comes after the drain, and a tick in its
    /// midst would only be superseded. Without a worker there is nothing to
    /// drain, but the counters may have moved since the last tick.
    pub fn shutdown(self) -> (begun: (Vec<WorkerAction>, Option<PendingDrain>))
        ensures
            begun.0@ == steps_before_drain(self),
            begun.1 == (if self.worker {
                Some(PendingDrain)
            } else {
                None
            }),
            self.sampler && self.worker ==> begun.0@ == seq![
                WorkerAction::AbortSampler,
                WorkerAction::SignalDrain,
                WorkerAction::AwaitWorker { grace_ms: 2_000 },
            ],
            !self.sampler && self.worker ==> begun.0@ == seq![
                WorkerAction::SignalDrain,
                WorkerAction::AwaitWorker { grace_ms: 2_000 },
            ],
            self.sampler && !self.worker ==> begun.0@ == seq![
                WorkerAction::AbortSampler,
                WorkerAction::PublishCounters,
            ],
            !self.sampler && !self.worker ==> begun.0@ == seq![WorkerAction::PublishCounters],
    {
        let mut steps: Vec<WorkerAction> = Vec::new();
        if self.sampler {
            steps.push(WorkerAction::AbortSampler);
        }
        if !self.worker {
            steps.push(WorkerAction::PublishCounters);
            assert(steps@ =~= steps_before_drain(self));
            return (steps, None);
        }
        steps.push(WorkerAction::SignalDrain);
        steps.push(WorkerAction::AwaitWorker { grace_ms: HEP_DRAIN_GRACE_MS });
        assert(steps@ =~= steps_before_drain(self));
        (steps, Some(PendingDrain))
    }
}

impl PendingDrain {
    /// Ends the shutdown. A worker that did not flush its queue in time, almost
    /// always for a collector that does not read, is aborted. The counters are
    /// published after the drain, so that the last packets, and any that raced
    /// the closing of the queue, are in them.
    pub fn finish(self, drained: bool) -> (steps: Vec<WorkerAction>)
        ensures
            steps@ == steps_after_drain(drained),
            drained ==> steps@ == seq![WorkerAction::PublishCounters],
            !drained ==> steps@ == seq![
                WorkerAction::AbortWorker,
                WorkerAction::PublishCounters,
                WorkerAction::WarnUndrained { grace_ms: 2_000 },
            ],
    {
        let mut steps: Vec<WorkerAction> = Vec::new();
        if !drained {
            steps.push(WorkerAction::AbortWorker);
        }
        steps.push(WorkerAction::PublishCounters);
        if !drained {
            steps.push(WorkerAction::WarnUndrained { grace_ms: HEP_DRAIN_GRACE_MS });
        }
        assert(steps@ =~= steps_after_drain(drained));
        steps
    }
}

/// However a shutdown goes, the counters are published once, and nothing that
/// can still move them comes after: by then the sampler is aborted, and the
/// worker has drained or is aborted. Only the warning may follow, and does
/// exactly where a worker did not drain in time.
pub proof fn law_counters_are_published_last(handle: HepWorkerHandle, drained: bool)
    ensures
        ({
            let steps = shutdown_steps(handle, drained);
            let undrained = handle.worker && !drained;
            let at = if undrained {
                steps.len() - 2
            } else {
                steps.len() - 1
            };
            &&& 0 <= at
            &&& forall|i: int|
                0 <= i < steps.len() ==> (#[trigger] steps[i] == WorkerAction::PublishCounters
                    <==> i == at)
            &&& forall|i: int|
                0 <= i < steps.len() ==> (#[trigger] steps[i] is WarnUndrained <==> undrained && i
                    == at + 1)
            &&& handle.sampler ==> steps[0] == WorkerAction::AbortSampler
            &&& handle.worker ==> ({
                let awaited = if drained {
                    at - 1
                } else {
                    at - 2
                };
                &&& steps[awaited] is AwaitWorker
                &&& steps[awaited - 1] == WorkerAction::SignalDrain
                &&& !drained ==> steps[at - 1] == WorkerAction::AbortWorker
            })
            &&& forall|i: int|
                0 <= i < steps.len() && #[trigger] steps[i] == WorkerAction::AbortWorker
                    ==> undrained
        }),
{
}

/// Every step of a shutdown is called for by what is held: the sampler is
/// aborted exactly where it is held, first of all; a drain is signalled exactly
/// where there is a worker; and a worker is given two seconds.
pub proof fn law_shutdown_sees_to_what_is_held(handle: HepWorkerHandle, drained: bool)
    ensures
        ({
            let steps = shutdown_steps(handle, drained);
            &&& steps.contains(WorkerAction::AbortSampler) <==> handle.sampler
            &&& steps.contains(WorkerAction::SignalDrain) <==> handle.worker
            &&& forall|ms: u64| #[trigger]
                steps.contains(WorkerAction::AwaitWorker { grace_ms: ms }) <==> handle.worker && ms
                    == 2_000
            &&& steps.contains(WorkerAction::AbortWorker) <==> handle.worker && !drained
            &&& forall|ms: u64| #[trigger]
                steps.contains(WorkerAction::WarnUndrained { grace_ms: ms }) <==> handle.worker
                    && !drained && ms == 2_000
            &&& steps.contains(WorkerAction::PublishCounters)
        }),
{
    let steps = shutdown_steps(handle, drained);
    let skip: int = if handle.sampler {
        1
    } else {
        0
    };
    assert(handle.sampler ==> steps[0] == WorkerAction::AbortSampler);
    if handle.worker {
        assert(steps[skip] == WorkerAction::SignalDrain);
        assert(steps[skip + 1] == (WorkerAction::AwaitWorker { grace_ms: 2_000 }));
        if drained {
            assert(steps[skip + 2] == WorkerAction::PublishCounters);
        } else {
            assert(steps[skip + 2] == WorkerAction::AbortWorker);
            assert(steps[skip + 3] == WorkerAction::PublishCounters);
            assert(steps[skip + 4] == (WorkerAction::WarnUndrained { grace_ms: 2_000 }));
        }
    } else {
        assert(steps[skip] == WorkerAction::PublishCounters);
    }
}

/// A step in stopping the health reporter's task.
#[derive(Debug, Clone, Copy, PartialEq, Eq, Structural)]
pub enum TaskAction {
    /// Tell the task to stop.
    SignalStop,
    /// Wait for the task to end, at most so long.
    AwaitTask { grace_ms: u64 },
    /// Abort the task.
    AbortTask,
    /// Warn that the task's last lines may be missing.
    WarnUnstopped { grace_ms: u64 },
}

/// What the owner of a health reporter's task still holds.
#[derive(Debug, Clone, Copy, PartialEq, Eq, Structural)]
pub struct ReporterTask {
    /// The means to tell the task to stop.
    pub signal: bool,
    /// The task.
    pub task: bool,
}

/// The steps up to and including the wait for the task, where there is one.
pub open spec fn stop_steps(held: ReporterTask) -> Seq<TaskAction> {
    (if held.signal {
        seq![TaskAction::SignalStop]
    } else {
        Seq::empty()
    }) + (if held.task {
        seq![TaskAction::AwaitTask { grace_ms: NODE_HEALTH_STOP_GRACE_MS }]
    } else {
        Seq::empty()
    })
}

/// The steps once the task has ended, or the grace has elapsed.
pub open spec fn steps_after_stop(ended: bool) -> Seq<TaskAction> {
    if ended {
        Seq::empty()
    } else {
        seq![
            TaskAction::AbortTask,
            TaskAction::WarnUnstopped { grace_ms: NODE_HEALTH_STOP_GRACE_MS },
        ]
    }
}

/// What letting go of a reporter calls for.
pub open spec fn release_step(held: ReporterTask) -> Option<TaskAction> {
    if held.task {
        Some(TaskAction::AbortTask)
    } else {
        None
    }
}

impl ReporterTask {
    /// What the owner holds right after the task was spawned.
    pub fn spawned() -> (held: ReporterTask)
        ensures
            held == (ReporterTask { signal: true, task: true }),
    {
        ReporterTask { signal: true, task: true }
    }

    /// Begins to stop the task: tell it to, then wait for it. After this the
    /// owner holds nothing.
    pub fn stop(&mut self) -> (steps: Vec<TaskAction>)
        ensures
            steps@ == stop_steps(*old(self)),
            *final(self) == (ReporterTask { signal: false, task: false }),
            old(self).signal && old(self).task ==> steps@ == seq![
                TaskAction::SignalStop,
                TaskAction::AwaitTask { grace_ms: 1_000 },
            ],
            old(self).signal && !old(self).task ==> steps@ == seq![TaskAction::SignalStop],
            !old(self).signal && old(self).task ==> steps@ == seq![
                TaskAction::AwaitTask { grace_ms: 1_000 },
            ],
            !old(self).signal && !old(self).task ==> steps@.len() == 0,
    {
        let mut steps: Vec<TaskAction> = Vec::new();
        if self.signal {
            self.signal = false;
            steps.push(TaskAction::SignalStop);
        }
        if self.task {
            self.task = false;
            steps.push(TaskAction::AwaitTask { grace_ms: NODE_HEALTH_STOP_GRACE_MS });
        }
        assert(steps@ =~= stop_steps(*old(self)));
        steps
    }

    /// Ends the stopping: a task that overran the grace is aborted rather than
    /// holding up teardown.
    pub fn awaited(ended: bool) -> (steps: Vec<TaskAction>)
        ensures
            steps@ == steps_after_stop(ended),
            ended ==> steps@.len() == 0,
            !ended ==> steps@ == seq![
                TaskAction::AbortTask,
                TaskAction::WarnUnstopped { grace_ms: 1_000 },
            ],
    {
        let mut steps: Vec<TaskAction> = Vec::new();
        if !ended {
            steps.push(TaskAction::AbortTask);
            steps.push(TaskAction::WarnUnstopped { grace_ms: NODE_HEALTH_STOP_GRACE_MS });
        }
        assert(steps@ =~= steps_after_stop(ended));
        steps
    }

    /// Lets go of the reporter. A task that was not stopped must not outlive
    /// its owner.
    pub fn release(&mut self) -> (step: Option<TaskAction>)
        ensures
            step == release_step(*old(self)),
            old(self).task ==> step == Some(TaskAction::AbortTask),
            !old(self).task ==> step is None,
            *final(self) == (ReporterTask { signal: old(self).signal, task: false }),
    {
        if self.task {
            self.task = false;
            Some(TaskAction::AbortTask)
        } else {
            None
        }
    }
}

/// Stopping sees to what is held and to nothing else: the task is told to stop
/// exactly where it can be told, and waited for, for one second, exactly where
/// it is held. A task that ended in time is not aborted.
pub proof fn law_stop_sees_to_what_is_held(held: ReporterTask)
    ensures
        stop_steps(held).contains(TaskAction::SignalStop) <==> held.signal,
        forall|ms: u64| #[trigger]
            stop_steps(held).contains(TaskAction::AwaitTask { grace_ms: ms }) <==> held.task && ms
                == 1_000,
        !stop_steps(held).contains(TaskAction::AbortTask),
        steps_after_stop(true).len() == 0,
        steps_after_stop(false).contains(TaskAction::WarnUnstopped { grace_ms: 1_000 }),
        release_step(held) is Some <==> held.task,
{
    let steps = stop_steps(held);
    assert(held.signal ==> steps[0] == TaskAction::SignalStop);
    assert(held.task ==> steps[steps.len() - 1] == (TaskAction::AwaitTask { grace_ms: 1_000 }));
    assert(steps_after_stop(false)[1] == (TaskAction::WarnUnstopped { grace_ms: 1_000 }));
}

/// No task outlives its owner: one that is held is waited for until it ends or
/// else aborted, and one whose owner is let go of without stopping it is
/// aborted. Letting go after stopping does nothing.
pub proof fn law_no_task_outlives_its_owner(held: ReporterTask, ended: bool)
    requires
        held.task,
    ensures
        stop_steps(held).last() is AwaitTask,
        held.signal ==> stop_steps(held)[0] == TaskAction::SignalStop,
        ended || steps_after_stop(ended).contains(TaskAction::AbortTask),
        release_step(held) == Some(TaskAction::AbortTask),
        release_step(ReporterTask { signal: false, task: false }) is None,
{
    assert(!ended ==> steps_after_stop(ended)[0] == TaskAction::AbortTask);
}

} // verus!
