//! The asynchronous task slot: one reusable unit of non-blocking
//! execution. A caller submits at most one task at a time; a worker
//! reports the terminal result exactly once; any number of readers poll
//! the current status without blocking. The library holds the state
//! machine and its guarantees; spawning the worker and carrying its
//! result back are the surrounding program's part.

use vstd::prelude::*;

use crate::resolve::ResolutionError;
use crate::resolve::ResolvedContext;
use crate::resolve::Settings;
use crate::resolve::resolve;
use crate::resolve::resolve_err;
use crate::selector::TargetSelector;

verus! {

/// A submission was refused because a task is already in flight.
#[derive(Clone, Copy, Debug, PartialEq, Eq, Structural)]
pub struct AlreadyRunning;

/// What a slot holds: nothing yet, a task in flight under its label, or
/// the terminal result of the last task.
#[derive(Debug)]
pub enum TaskState<T, E> {
    Idle,
    Running { label: String },
    Done { result: Result<T, E> },
}

/// A slot with at most one task in flight, plus a generation counter that
/// grows by one with every accepted submission.
#[derive(Debug)]
pub struct TaskSlot<T, E> {
    state: TaskState<T, E>,
    generation: u64,
}

impl<T, E> TaskSlot<T, E> {
    /// The slot's current state.
    pub closed spec fn state_spec(&self) -> TaskState<T, E> {
        self.state
    }

    /// Nothing has been submitted since the last reset.
    pub open spec fn is_idle(&self) -> bool {
        self.state_spec() is Idle
    }

    /// A task is in flight.
    pub open spec fn is_running(&self) -> bool {
        self.state_spec() is Running
    }

    /// The last task's terminal result is stored.
    pub open spec fn is_done(&self) -> bool {
        self.state_spec() is Done
    }

    /// The in-flight task's label.
    pub open spec fn label_spec(&self) -> Seq<char>
        recommends
            self.is_running(),
    {
        self.state_spec()->label@
    }

    /// The stored terminal result.
    pub open spec fn result_spec(&self) -> Result<T, E>
        recommends
            self.is_done(),
    {
        self.state_spec()->result
    }

    /// How many submissions the slot has accepted.
    pub closed spec fn generation_spec(&self) -> u64 {
        self.generation
    }

    /// A fresh, idle slot.
    pub fn new() -> (r: TaskSlot<T, E>)
        ensures
            r.is_idle(),
            r.generation_spec() == 0,
    {
        TaskSlot { state: TaskState::Idle, generation: 0 }
    }

    /// Submits a task under `label`. Allowed from idle or done; a running
    /// slot rejects the submission and is left exactly as it was — the
    /// in-flight task is neither queued behind nor cancelled.
    pub fn submit(&mut self, label: String) -> (r: Result<(), AlreadyRunning>)
        requires
            !old(self).is_running() ==> old(self).generation_spec() < u64::MAX,
        ensures
            old(self).is_running() ==> (r is Err && *final(self) == *old(self)),
            !old(self).is_running() ==> {
                &&& r is Ok
                &&& final(self).is_running()
                &&& final(self).label_spec() == label@
                &&& final(self).generation_spec() == old(self).generation_spec() + 1
            },
            slot_step(*old(self), *final(self)),
    {
        match &self.state {
            TaskState::Running { .. } => Err(AlreadyRunning),
            _ => {
                self.state = TaskState::Running { label };
                self.generation = self.generation + 1;
                Ok(())
            },
        }
    }

    /// The worker's single report: stores the terminal result. Only a
    /// running slot can be completed, so a stored result is never
    /// overwritten.
    pub fn complete(&mut self, result: Result<T, E>)
        requires
            old(self).is_running(),
        ensures
            final(self).is_done(),
            final(self).result_spec() == result,
            final(self).generation_spec() == old(self).generation_spec(),
            slot_step(*old(self), *final(self)),
    {
        self.state = TaskState::Done { result };
    }

    /// Non-blocking read of the current status; safe to call every tick.
    pub fn status(&self) -> (r: StatusView<'_, T, E>)
        ensures
            self.is_idle() <==> r is NotStarted,
            self.is_running() <==> r is Loading,
            r matches StatusView::Loading(l) ==> l@ == self.label_spec(),
            (self.is_done() && self.result_spec() is Ok) <==> r is Succeeded,
            r matches StatusView::Succeeded(v) ==> (self.result_spec() matches Ok(t) && *v
                == t),
            (self.is_done() && self.result_spec() is Err) <==> r is Failed,
            r matches StatusView::Failed(e) ==> (self.result_spec() matches Err(x) && *e == x),
    {
        match &self.state {
            TaskState::Idle => StatusView::NotStarted,
            TaskState::Running { label } => StatusView::Loading(label.as_str()),
            TaskState::Done { result } => match result {
                Ok(v) => StatusView::Succeeded(v),
                Err(e) => StatusView::Failed(e),
            },
        }
    }

    /// How many submissions the slot has accepted.
    pub fn generation(&self) -> (r: u64)
        ensures
            r == self.generation_spec(),
    {
        self.generation
    }

    /// Whether a task is in flight.
    pub fn is_loading(&self) -> (r: bool)
        ensures
            r == self.is_running(),
    {
        match &self.state {
            TaskState::Running { .. } => true,
            _ => false,
        }
    }

    /// The stored success value, if the last task ended well.
    pub fn success(&self) -> (r: Option<&T>)
        ensures
            r is Some <==> (self.is_done() && self.result_spec() is Ok),
            r matches Some(v) ==> (self.result_spec() matches Ok(t) && *v == t),
    {
        match &self.state {
            TaskState::Done { result: Ok(v) } => Some(v),
            _ => None,
        }
    }

    /// Moves a stored terminal result out, resetting the slot to idle;
    /// a slot that holds none is left as it was.
    pub fn take(&mut self) -> (r: Option<Result<T, E>>)
        ensures
            old(self).is_done() ==> {
                &&& r matches Some(res) && res == old(self).result_spec()
                &&& final(self).is_idle()
                &&& final(self).generation_spec() == old(self).generation_spec()
            },
            !old(self).is_done() ==> (r is None && *final(self) == *old(self)),
            slot_step(*old(self), *final(self)),
    {
        let mut taken = TaskState::Idle;
        core::mem::swap(&mut taken, &mut self.state);
        match taken {
            TaskState::Done { result } => Some(result),
            other => {
                self.state = other;
                None
            },
        }
    }
}

/// How a slot looks to a poller, borrowed from the slot itself.
#[derive(Debug)]
pub enum StatusView<'a, T, E> {
    /// Nothing has run since the last reset.
    NotStarted,
    /// A task is in flight, described by its label.
    Loading(&'a str),
    /// The last task succeeded with this value.
    Succeeded(&'a T),
    /// The last task failed with this error.
    Failed(&'a E),
}

/// One step of the slot's state machine: what any single call of a
/// mutating method may do. Every such method promises
/// `slot_step(*old(self), *final(self))`.
pub open spec fn slot_step<T, E>(pre: TaskSlot<T, E>, post: TaskSlot<T, E>) -> bool {
    // A read, or a rejected or resultless call: nothing changes.
    ||| post == pre
    // An accepted submission.
    ||| (!pre.is_running() && post.is_running() && post.generation_spec()
        == pre.generation_spec() + 1)
    // A worker's completion.
    ||| (pre.is_running() && post.is_done() && post.generation_spec()
        == pre.generation_spec())
    // The caller taking the stored result.
    ||| (pre.is_done() && post.is_idle() && post.generation_spec() == pre.generation_spec())
}

/// Law: after a worker completes, every poll reads the same terminal
/// value until the caller itself moves the slot on. From a terminal
/// state, the only steps are a fresh accepted submission, the caller
/// taking the result, or no change at all; so as long as the slot is
/// still terminal it is identical, and `status`, a function of the slot
/// alone, answers every poll alike.
pub proof fn lemma_terminal_status_stable<T, E>(pre: TaskSlot<T, E>, post: TaskSlot<T, E>)
    requires
        pre.is_done(),
        slot_step(pre, post),
    ensures
        post.is_done() ==> post == pre,
        post.is_done() ==> post.result_spec() == pre.result_spec(),
{
}

/// Why a task could not be started.
#[derive(Clone, Copy, Debug, PartialEq, Eq, Structural)]
pub enum StartError {
    /// The context could not be assembled; nothing was submitted.
    Resolution(ResolutionError),
    /// A task is already in flight on this slot; nothing was performed.
    SlotBusy,
}

/// The decision half of one user-triggered action: resolves the context
/// from a snapshot of the settings, then marks the slot running under
/// `label`. On success the caller hands the returned context to the
/// worker it spawns; the worker reports back through `complete`. The
/// context is resolved once, before submission, so a task in flight never
/// re-reads live settings.
pub fn start_task<T, E>(
    slot: &mut TaskSlot<T, E>,
    settings: Settings,
    selector: &TargetSelector,
    require_ssh: bool,
    label: String,
) -> (r: Result<ResolvedContext, StartError>)
    requires
        selector.wf(),
        !old(slot).is_running() ==> old(slot).generation_spec() < u64::MAX,
    ensures
        resolve_err(settings, *selector, require_ssh) matches Some(e) ==> {
            &&& r matches Err(StartError::Resolution(got)) && got == e
            &&& *final(slot) == *old(slot)
        },
        resolve_err(settings, *selector, require_ssh) is None ==> {
            &&& old(slot).is_running() ==> (r matches Err(e) && e == StartError::SlotBusy
                && *final(slot) == *old(slot))
            &&& !old(slot).is_running() ==> {
                &&& r matches Ok(ctx)
                &&& Some(ctx.config) == settings.config
                &&& ctx.directory_credential == settings.directory_credential
                &&& ctx.cluster_credential == settings.cluster_credential
                &&& ctx.covers(*selector)
                &&& final(slot).is_running()
                &&& final(slot).label_spec() == label@
                &&& final(slot).generation_spec() == old(slot).generation_spec() + 1
            }
        },
{
    match resolve(settings, selector, require_ssh) {
        Err(e) => Err(StartError::Resolution(e)),
        Ok(ctx) => match slot.submit(label) {
            Err(_) => Err(StartError::SlotBusy),
            Ok(_) => Ok(ctx),
        },
    }
}

} // verus!
