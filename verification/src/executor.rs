//! The bridge executor: the one context in which every operation of a
//! process runs.
//!
//! It is started once, on first use. Where starting fails it stays
//! failed and admits nothing. The operations that it holds share nothing:
//! a report to one of them leaves the others as they were.

use vstd::prelude::*;
use crate::error::BridgeError;
use crate::operation::{
    lemma_no_secret_after_report,
    next_action,
    next_state,
    secret_held,
    state_after,
    Action,
    ActionView,
    Event,
    Operation,
    OperationView,
};

verus! {

/// How far the executor has come.
#[derive(Clone, Copy, Debug, PartialEq, Eq, Structural)]
pub enum ExecutorStatus {
    /// Nothing has been run yet; the run context is still to be built.
    Uninitialized,
    /// The run context was built and is in use.
    Ready,
    /// The run context could not be built. Fatal for the session.
    Failed,
}

/// The status after an attempt to build the run context ended, well
/// (`built`) or not. Only the first attempt counts.
pub open spec fn status_after_start(status: ExecutorStatus, built: bool) -> ExecutorStatus {
    match status {
        ExecutorStatus::Uninitialized => if built {
            ExecutorStatus::Ready
        } else {
            ExecutorStatus::Failed
        },
        _ => status,
    }
}

/// Where the next operation goes: the first slot whose operation has
/// ended, or a new slot at the end.
pub open spec fn free_slot(tasks: Seq<OperationView>) -> int
    decreases tasks.len(),
{
    if tasks.len() == 0 {
        0
    } else if tasks[0] == OperationView::Finished {
        0
    } else {
        1 + free_slot(tasks.drop_first())
    }
}

/// The tasks after `operation` was put into `slot`.
pub open spec fn placed(tasks: Seq<OperationView>, slot: int, operation: OperationView) -> Seq<
    OperationView,
> {
    if 0 <= slot < tasks.len() {
        tasks.update(slot, operation)
    } else {
        tasks.push(operation)
    }
}

/// The tasks after `event` was reported to the task `task`. A number
/// that names no task changes nothing.
pub open spec fn delivered(tasks: Seq<OperationView>, task: int, event: Event) -> Seq<
    OperationView,
> {
    if 0 <= task < tasks.len() {
        tasks.update(task, next_state(tasks[task], event))
    } else {
        tasks
    }
}

/// What is to be done after `event` was reported to the task `task`.
pub open spec fn action_on(tasks: Seq<OperationView>, task: int, event: Event) -> ActionView {
    if 0 <= task < tasks.len() {
        next_action(tasks[task], event)
    } else {
        ActionView::Nothing
    }
}

/// The tasks after a run of reports, each a task's number and an event,
/// was delivered in order.
pub open spec fn delivered_all(tasks: Seq<OperationView>, reports: Seq<(int, Event)>) -> Seq<
    OperationView,
>
    decreases reports.len(),
{
    if reports.len() == 0 {
        tasks
    } else {
        delivered_all(delivered(tasks, reports[0].0, reports[0].1), reports.drop_first())
    }
}

/// The events that a run of reports holds for the task `task`, in order.
pub open spec fn reports_to(reports: Seq<(int, Event)>, task: int) -> Seq<Event>
    decreases reports.len(),
{
    if reports.len() == 0 {
        Seq::empty()
    } else if reports[0].0 == task {
        seq![reports[0].1] + reports_to(reports.drop_first(), task)
    } else {
        reports_to(reports.drop_first(), task)
    }
}

/// The executor: its status and the operations in flight, each in a slot
/// of its own.
pub struct BridgeExecutor {
    status: ExecutorStatus,
    tasks: Vec<Operation>,
}

/// What the executor holds.
pub struct ExecutorView {
    pub status: ExecutorStatus,
    pub tasks: Seq<OperationView>,
}

impl View for BridgeExecutor {
    type V = ExecutorView;

    closed spec fn view(&self) -> ExecutorView {
        ExecutorView {
            status: self.status,
            tasks: Seq::new(self.tasks@.len(), |i: int| self.tasks@[i]@),
        }
    }
}

impl BridgeExecutor {
    /// An executor that has run nothing yet.
    pub fn new() -> (r: BridgeExecutor)
        ensures
            r@.status == ExecutorStatus::Uninitialized,
            r@.tasks == Seq::<OperationView>::empty(),
    {
        let r = BridgeExecutor { status: ExecutorStatus::Uninitialized, tasks: Vec::new() };
        assert(r@.tasks =~= Seq::<OperationView>::empty());
        r
    }

    /// How far the executor has come.
    pub fn status(&self) -> (r: ExecutorStatus)
        ensures
            r == self@.status,
    {
        self.status
    }

    /// Whether the run context is still to be built.
    pub fn needs_start(&self) -> (r: bool)
        ensures
            r == (self@.status == ExecutorStatus::Uninitialized),
    {
        match self.status {
            ExecutorStatus::Uninitialized => true,
            _ => false,
        }
    }

    /// Records how building the run context ended. The first record
    /// decides; a later one changes nothing, so a failure is never
    /// retried and a context that was built is never replaced.
    pub fn record_start(&mut self, built: bool)
        ensures
            final(self)@.status == status_after_start(old(self)@.status, built),
            final(self)@.tasks == old(self)@.tasks,
    {
        match self.status {
            ExecutorStatus::Uninitialized => {
                if built {
                    self.status = ExecutorStatus::Ready;
                } else {
                    self.status = ExecutorStatus::Failed;
                }
            },
            _ => {},
        }
    }

    /// Number of slots, free ones included.
    pub fn slots(&self) -> (r: usize)
        ensures
            r == self@.tasks.len(),
    {
        self.tasks.len()
    }

    /// The operation in the slot `task`, for the one who performs its
    /// work; none where the number names no slot.
    pub fn task(&self, task: usize) -> (r: Option<&Operation>)
        ensures
            r is Some <==> task < self@.tasks.len(),
            r matches Some(operation) ==> operation@ == self@.tasks[task as int],
    {
        if task < self.tasks.len() {
            Some(&self.tasks[task])
        } else {
            None
        }
    }

    /// Takes `operation` in, and says in which slot it runs.
    ///
    /// An executor that is not ready refuses every operation with
    /// `ExecutorInitError` and stays as it was. A ready one puts the
    /// operation into the first free slot and leaves the others alone.
    pub fn submit(&mut self, operation: Operation) -> (r: Result<usize, BridgeError>)
        ensures
            final(self)@.status == old(self)@.status,
            r is Ok <==> old(self)@.status == ExecutorStatus::Ready,
            r matches Ok(slot) ==> slot == free_slot(old(self)@.tasks) && final(self)@.tasks
                == placed(old(self)@.tasks, slot as int, operation@),
            r matches Err(e) ==> e == BridgeError::ExecutorInitError && final(self)@.tasks == old(
                self,
            )@.tasks,
    {
        match self.status {
            ExecutorStatus::Ready => {},
            _ => {
                return Err(BridgeError::ExecutorInitError);
            },
        }
        let ghost before = self@.tasks;
        let mut slot: usize = 0;
        assert(before.skip(0) =~= before);
        while slot < self.tasks.len() && !self.tasks[slot].is_finished()
            invariant
                slot <= self.tasks@.len(),
                self@.tasks == before,
                self@.status == ExecutorStatus::Ready,
                free_slot(before) == slot + free_slot(before.skip(slot as int)),
                forall|i: int| 0 <= i < slot ==> before[i] != OperationView::Finished,
            decreases self.tasks@.len() - slot,
        {
            proof {
                let rest = before.skip(slot as int);
                assert(rest[0] == before[slot as int]);
                assert(rest.drop_first() =~= before.skip(slot + 1));
            }
            slot += 1;
        }
        proof {
            let rest = before.skip(slot as int);
            if slot < before.len() {
                assert(rest[0] == before[slot as int]);
            }
            assert(free_slot(rest) == 0);
        }
        if slot < self.tasks.len() {
            self.tasks.set(slot, operation);
        } else {
            self.tasks.push(operation);
        }
        assert(self@.tasks =~= placed(before, slot as int, operation@));
        Ok(slot)
    }

    /// Reports `event` to the operation in the slot `task`, and says what
    /// follows for it. No other slot changes. A number that names no slot
    /// changes nothing and asks for nothing.
    pub fn deliver(&mut self, task: usize, event: Event) -> (action: Action)
        ensures
            final(self)@.status == old(self)@.status,
            final(self)@.tasks == delivered(old(self)@.tasks, task as int, event),
            action@ == action_on(old(self)@.tasks, task as int, event),
    {
        if task >= self.tasks.len() {
            return Action::Nothing;
        }
        let ghost before = self@.tasks;
        let mut current = Operation::Finished;
        self.tasks.set_and_swap(task, &mut current);
        let (next, action) = current.advance(event);
        self.tasks.set(task, next);
        assert(self@.tasks =~= delivered(before, task as int, event));
        action
    }
}

/// Only the first attempt to start decides: whatever is recorded later,
/// the status stays what the first record made it, and it is never
/// `Uninitialized` again.
pub proof fn lemma_start_decides_once(status: ExecutorStatus, first: bool, later: bool)
    ensures
        status_after_start(status_after_start(status, first), later) == status_after_start(
            status,
            first,
        ),
        status_after_start(status, first) != ExecutorStatus::Uninitialized,
        status == ExecutorStatus::Failed ==> status_after_start(status, first)
            == ExecutorStatus::Failed,
        status == ExecutorStatus::Ready ==> status_after_start(status, first)
            == ExecutorStatus::Ready,
{
}

/// The free slot is a slot whose operation has ended, or the end of the
/// table, and no slot before it is free.
pub proof fn lemma_free_slot(tasks: Seq<OperationView>)
    ensures
        0 <= free_slot(tasks) <= tasks.len(),
        free_slot(tasks) < tasks.len() ==> tasks[free_slot(tasks)] == OperationView::Finished,
        forall|i: int| 0 <= i < free_slot(tasks) ==> tasks[i] != OperationView::Finished,
    decreases tasks.len(),
{
    if tasks.len() > 0 && tasks[0] != OperationView::Finished {
        let rest = tasks.drop_first();
        lemma_free_slot(rest);
        assert forall|i: int| 0 <= i < free_slot(tasks) implies tasks[i]
            != OperationView::Finished by {
            if i > 0 {
                assert(tasks[i] == rest[i - 1]);
            }
        }
    }
}

/// Two operations on one executor do not disturb one another: reports to
/// two different tasks may come in either order, and each task ends in
/// the state, and asks for the action, that its own report alone gives.
pub proof fn lemma_tasks_do_not_interfere(
    tasks: Seq<OperationView>,
    a: int,
    event_a: Event,
    b: int,
    event_b: Event,
)
    requires
        a != b,
    ensures
        delivered(delivered(tasks, a, event_a), b, event_b) == delivered(
            delivered(tasks, b, event_b),
            a,
            event_a,
        ),
        action_on(delivered(tasks, a, event_a), b, event_b) == action_on(tasks, b, event_b),
        action_on(delivered(tasks, b, event_b), a, event_a) == action_on(tasks, a, event_a),
        0 <= a < tasks.len() ==> delivered(delivered(tasks, b, event_b), a, event_a)[a]
            == next_state(tasks[a], event_a),
        0 <= b < tasks.len() ==> delivered(delivered(tasks, a, event_a), b, event_b)[b]
            == next_state(tasks[b], event_b),
{
    assert(delivered(delivered(tasks, a, event_a), b, event_b) =~= delivered(
        delivered(tasks, b, event_b),
        a,
        event_a,
    ));
}

/// Taking an operation in disturbs no operation in flight: every slot
/// that held an unfinished operation holds it still.
pub proof fn lemma_submit_keeps_tasks(tasks: Seq<OperationView>, operation: OperationView, i: int)
    requires
        0 <= i < tasks.len(),
        tasks[i] != OperationView::Finished,
    ensures
        placed(tasks, free_slot(tasks), operation)[i] == tasks[i],
{
    lemma_free_slot(tasks);
}

/// A task that was reported to holds no secret key any more, whatever the
/// report was; a task that has ended holds none either.
pub proof fn lemma_reported_task_holds_no_secret(
    tasks: Seq<OperationView>,
    task: int,
    event: Event,
)
    requires
        0 <= task < tasks.len(),
    ensures
        secret_held(delivered(tasks, task, event)[task]) is None,
        secret_held(OperationView::Finished) is None,
{
    lemma_no_secret_after_report(tasks[task], event);
}

/// However the reports to the tasks of one executor are interleaved, each
/// task ends in the state in which its own reports alone would leave it:
/// what is reported to the others has no part in it.
pub proof fn lemma_interleaved_tasks_run_alone(
    tasks: Seq<OperationView>,
    reports: Seq<(int, Event)>,
    task: int,
)
    requires
        0 <= task < tasks.len(),
    ensures
        delivered_all(tasks, reports).len() == tasks.len(),
        delivered_all(tasks, reports)[task] == state_after(tasks[task], reports_to(reports, task)),
    decreases reports.len(),
{
    if reports.len() > 0 {
        let first = reports[0];
        let rest = reports.drop_first();
        let next = delivered(tasks, first.0, first.1);
        lemma_interleaved_tasks_run_alone(next, rest, task);
        if first.0 == task {
            let own = reports_to(reports, task);
            assert(own[0] == first.1);
            assert(own.drop_first() =~= reports_to(rest, task));
        }
    }
}

} // verus!
