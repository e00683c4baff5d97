//! The slot that holds the one external process that may run at a time.
//!
//! Starting a process takes the slot over: whoever held it is handed back to
//! the caller, who terminates it. A handle is told apart from every earlier
//! one by its ticket, which the supervisor issues and never reuses.

use vstd::prelude::*;

verus! {

/// A reference to one started process.
#[derive(Clone, Copy, Debug, PartialEq, Eq, Structural)]
pub struct ProcessHandle {
    /// The ticket that the supervisor issued for this start.
    pub id: u64,
    /// The identifier that the operating system gave the process.
    pub pid: u32,
}

/// Why a process could not be started.
#[derive(Clone, Copy, Debug, PartialEq, Eq, Structural)]
pub enum SpawnError {
    /// The executable was not found.
    NotFound,
    /// The operating system refused to create the process.
    PermissionDenied,
    /// The start failed for another reason.
    Other,
}

/// What a start did to the slot.
#[derive(Clone, Copy, Debug, PartialEq, Eq)]
pub struct StartOutcome {
    /// The process that held the slot before, to be terminated.
    pub displaced: Option<ProcessHandle>,
    /// The handle that now holds the slot, or why nothing was started.
    pub result: Result<ProcessHandle, SpawnError>,
}

/// The state of a supervisor as a mathematical value.
pub struct SupervisorView {
    /// The process that holds the slot.
    pub slot: Option<ProcessHandle>,
    /// How many tickets have been issued.
    pub issued: nat,
}

impl SupervisorView {
    /// A supervisor that has started nothing yet.
    pub open spec fn idle() -> SupervisorView {
        SupervisorView { slot: None, issued: 0 }
    }

    /// The occupant carries a ticket that was issued.
    pub open spec fn wf(self) -> bool {
        self.slot matches Some(handle) ==> handle.id < self.issued
    }

    /// A start whose attempt to create the process ended as `spawned`.
    ///
    /// The former occupant leaves the slot either way. A created process
    /// takes the slot under the next ticket; after a failure the slot is
    /// empty.
    pub open spec fn start(self, spawned: Result<u32, SpawnError>) -> (SupervisorView, StartOutcome) {
        match spawned {
            Ok(pid) => {
                let handle = ProcessHandle { id: self.issued as u64, pid };
                (
                    SupervisorView { slot: Some(handle), issued: self.issued + 1 },
                    StartOutcome { displaced: self.slot, result: Ok(handle) },
                )
            },
            Err(error) => (
                SupervisorView { slot: None, issued: self.issued },
                StartOutcome { displaced: self.slot, result: Err(error) },
            ),
        }
    }

    /// A request to cancel: the occupant, if any, leaves the slot.
    pub open spec fn cancel(self) -> (SupervisorView, Option<ProcessHandle>) {
        (SupervisorView { slot: None, issued: self.issued }, self.slot)
    }

    /// The process behind `handle` has exited. The slot is cleared if it
    /// still held that process, and the answer says whether it did.
    pub open spec fn release(self, handle: ProcessHandle) -> (SupervisorView, bool) {
        if self.slot == Some(handle) {
            (SupervisorView { slot: None, issued: self.issued }, true)
        } else {
            (self, false)
        }
    }
}

/// The slot: a cell that holds at most one process.
pub struct SupervisorSlot {
    occupant: Option<ProcessHandle>,
}

impl View for SupervisorSlot {
    type V = Option<ProcessHandle>;

    closed spec fn view(&self) -> Option<ProcessHandle> {
        self.occupant
    }
}

impl SupervisorSlot {
    /// A slot that holds nothing.
    pub fn empty() -> (slot: SupervisorSlot)
        ensures
            slot@ is None,
    {
        SupervisorSlot { occupant: None }
    }

    /// The process that the slot holds.
    pub fn occupant(&self) -> (occupant: Option<ProcessHandle>)
        ensures
            occupant == self@,
    {
        self.occupant
    }

    /// Puts `next` into the slot and hands out what the slot held. Whatever
    /// was held before is no longer held afterwards.
    pub fn replace(&mut self, next: Option<ProcessHandle>) -> (previous: Option<ProcessHandle>)
        ensures
            previous == old(self)@,
            final(self)@ == next,
        no_unwind
    {
        let previous = self.occupant;
        self.occupant = next;
        previous
    }
}

/// The owner of the slot.
pub struct ProcessSupervisor {
    slot: SupervisorSlot,
    issued: u64,
}

impl View for ProcessSupervisor {
    type V = SupervisorView;

    closed spec fn view(&self) -> SupervisorView {
        SupervisorView { slot: self.slot@, issued: self.issued as nat }
    }
}

impl ProcessSupervisor {
    /// The ticket of the occupant has been issued, so the next ticket
    /// differs from it.
    #[verifier::type_invariant]
    spec fn occupant_was_issued(&self) -> bool {
        self@.wf()
    }

    /// A supervisor with an empty slot.
    pub fn new() -> (supervisor: ProcessSupervisor)
        ensures
            supervisor@ == SupervisorView::idle(),
    {
        ProcessSupervisor { slot: SupervisorSlot::empty(), issued: 0 }
    }

    /// The process that holds the slot, if one does.
    pub fn current(&self) -> (occupant: Option<ProcessHandle>)
        ensures
            occupant == self@.slot,
            self@.wf(),
    {
        proof {
            use_type_invariant(self);
        }
        self.slot.occupant()
    }

    /// Whether another ticket can be issued.
    pub fn can_start(&self) -> (possible: bool)
        ensures
            possible == (self@.issued < u64::MAX),
    {
        self.issued < u64::MAX
    }

    /// Records the outcome of creating a process and takes the slot over.
    ///
    /// The caller terminates the displaced process.
    pub fn start(&mut self, spawned: Result<u32, SpawnError>) -> (outcome: StartOutcome)
        requires
            spawned is Ok ==> old(self)@.issued < u64::MAX,
        ensures
            (final(self)@, outcome) == old(self)@.start(spawned),
            final(self)@.wf(),
    {
        let displaced = self.slot.replace(None);
        match spawned {
            Ok(pid) => {
                let handle = ProcessHandle { id: self.issued, pid };
                self.issued = self.issued + 1;
                let _ = self.slot.replace(Some(handle));
                StartOutcome { displaced, result: Ok(handle) }
            },
            Err(error) => StartOutcome { displaced, result: Err(error) },
        }
    }

    /// Empties the slot and hands out the process that held it, for the
    /// caller to terminate. With an empty slot this does nothing.
    pub fn cancel(&mut self) -> (terminated: Option<ProcessHandle>)
        ensures
            (final(self)@, terminated) == old(self)@.cancel(),
            final(self)@.wf(),
    {
        self.slot.replace(None)
    }

    /// Clears the slot after `handle` has exited, if the slot still holds it.
    /// `false` says that the process had been cancelled or displaced before.
    pub fn release(&mut self, handle: ProcessHandle) -> (held: bool)
        ensures
            (final(self)@, held) == old(self)@.release(handle),
            final(self)@.wf(),
    {
        proof {
            use_type_invariant(&*self);
        }
        match self.slot.occupant() {
            Some(occupant) => {
                if occupant.id == handle.id && occupant.pid == handle.pid {
                    let _ = self.slot.replace(None);
                    true
                } else {
                    false
                }
            },
            None => false,
        }
    }
}

/// A start leaves exactly the new process in the slot. Its ticket differs
/// from the ticket of the process that held the slot before, and that
/// process is handed out to be terminated.
pub proof fn lemma_start_replaces_occupant(before: SupervisorView, pid: u32)
    requires
        before.wf(),
        before.issued < u64::MAX,
    ensures
        ({
            let (after, outcome) = before.start(Ok(pid));
            &&& after.wf()
            &&& outcome.displaced == before.slot
            &&& outcome.result is Ok
            &&& after.slot == Some(outcome.result->Ok_0)
            &&& before.slot matches Some(previous) ==> {
                &&& after.slot != Some(previous)
                &&& outcome.result->Ok_0.id != previous.id
            }
        }),
{
}

/// A failed start leaves the slot empty, whoever held it.
pub proof fn lemma_failed_start_empties_slot(before: SupervisorView, error: SpawnError)
    requires
        before.wf(),
    ensures
        ({
            let (after, outcome) = before.start(Err(error));
            &&& after.wf()
            &&& after.slot is None
            &&& outcome.displaced == before.slot
            &&& outcome.result == Err::<ProcessHandle, SpawnError>(error)
        }),
{
}

/// Cancelling with an empty slot changes nothing and hands out nothing, and
/// cancelling twice is cancelling once.
pub proof fn lemma_cancel_idle_is_noop(before: SupervisorView)
    ensures
        before.slot is None ==> before.cancel() == (before, None::<ProcessHandle>),
        before.cancel().0.cancel() == (before.cancel().0, None::<ProcessHandle>),
{
}

/// A process that was cancelled or displaced is no longer found in the slot
/// when it exits.
pub proof fn lemma_release_detects_cancellation(before: SupervisorView, pid: u32)
    requires
        before.wf(),
        before.issued < u64::MAX,
    ensures
        ({
            let (running, outcome) = before.start(Ok(pid));
            let handle = outcome.result->Ok_0;
            &&& running.release(handle) == (running.cancel().0, true)
            &&& running.cancel().0.release(handle).1 == false
            &&& forall|other: u32|
                running.issued < u64::MAX ==> (#[trigger] running.start(Ok(other))).0.release(
                    handle,
                ).1 == false
        }),
{
}

} // verus!
