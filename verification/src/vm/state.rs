//! VM lifecycle state machine.

use vstd::prelude::*;

use crate::error::{CofferError, ErrorView};
use crate::text::{cat3, Text};

verus! {

broadcast use vstd::string::group_string_axioms;

/// The lifecycle of a Firecracker microVM.
#[derive(Debug, Clone, Copy, PartialEq, Eq, Structural)]
pub enum VmLifecycle {
    /// Just created, no config applied yet.
    Unconfigured,
    /// Configured but not booted.
    Configured,
    /// Booted and running.
    Running,
    /// Paused (vCPUs frozen).
    Paused,
    /// Snapshot created while paused.
    SnapshotCreated,
    /// Snapshot loaded, waiting to resume.
    SnapshotLoaded,
    /// Shut down or crashed.
    Exited,
}

/// The name of a state.
pub open spec fn state_name(s: VmLifecycle) -> Text {
    match s {
        VmLifecycle::Unconfigured => "unconfigured"@,
        VmLifecycle::Configured => "configured"@,
        VmLifecycle::Running => "running"@,
        VmLifecycle::Paused => "paused"@,
        VmLifecycle::SnapshotCreated => "snapshot_created"@,
        VmLifecycle::SnapshotLoaded => "snapshot_loaded"@,
        VmLifecycle::Exited => "exited"@,
    }
}

/// The valid transitions.
pub open spec fn allowed(from: VmLifecycle, to: VmLifecycle) -> bool {
    match from {
        VmLifecycle::Unconfigured => to == VmLifecycle::Configured,
        VmLifecycle::Configured => to == VmLifecycle::Running || to == VmLifecycle::Exited,
        VmLifecycle::Running => to == VmLifecycle::Paused || to == VmLifecycle::Exited,
        VmLifecycle::Paused => to == VmLifecycle::SnapshotCreated || to == VmLifecycle::Running || to
            == VmLifecycle::Exited,
        VmLifecycle::SnapshotCreated => to == VmLifecycle::Running || to
            == VmLifecycle::SnapshotLoaded,
        VmLifecycle::SnapshotLoaded => to == VmLifecycle::Running,
        VmLifecycle::Exited => false,
    }
}

impl VmLifecycle {
    /// The name of the state.
    pub fn name(&self) -> (r: &'static str)
        ensures
            r@ == state_name(*self),
    {
        match self {
            VmLifecycle::Unconfigured => "unconfigured",
            VmLifecycle::Configured => "configured",
            VmLifecycle::Running => "running",
            VmLifecycle::Paused => "paused",
            VmLifecycle::SnapshotCreated => "snapshot_created",
            VmLifecycle::SnapshotLoaded => "snapshot_loaded",
            VmLifecycle::Exited => "exited",
        }
    }

    /// Whether the state may be followed by `next`.
    pub fn can_transition_to(&self, next: VmLifecycle) -> (r: bool)
        ensures
            r == allowed(*self, next),
    {
        matches!(
            (*self, next),
            (VmLifecycle::Unconfigured, VmLifecycle::Configured)
                | (VmLifecycle::Configured, VmLifecycle::Running)
                | (VmLifecycle::Running, VmLifecycle::Paused)
                | (VmLifecycle::Paused, VmLifecycle::SnapshotCreated)
                | (VmLifecycle::Paused, VmLifecycle::Running)
                | (VmLifecycle::SnapshotCreated, VmLifecycle::Running)
                | (VmLifecycle::SnapshotCreated, VmLifecycle::SnapshotLoaded)
                | (VmLifecycle::SnapshotLoaded, VmLifecycle::Running)
                | (VmLifecycle::Running, VmLifecycle::Exited)
                | (VmLifecycle::Paused, VmLifecycle::Exited)
                | (VmLifecycle::Configured, VmLifecycle::Exited)
        )
    }
}

/// Guard that ensures state transitions are valid.
#[derive(Debug)]
pub struct StateMachine {
    state: VmLifecycle,
}

impl View for StateMachine {
    type V = VmLifecycle;

    closed spec fn view(&self) -> VmLifecycle {
        self.state
    }
}

/// The error of a transition that is not valid.
pub open spec fn transition_error(from: VmLifecycle, to: VmLifecycle) -> ErrorView {
    ErrorView::InvalidVmState {
        id: "unknown"@,
        expected: "transition from "@ + state_name(from) + " to valid state"@,
        actual: state_name(to),
    }
}

impl StateMachine {
    /// The machine of a new VM.
    pub fn new() -> (r: StateMachine)
        ensures
            r@ == VmLifecycle::Unconfigured,
    {
        StateMachine { state: VmLifecycle::Unconfigured }
    }

    /// The machine of a VM that is being restored from a snapshot.
    pub fn from_snapshot() -> (r: StateMachine)
        ensures
            r@ == VmLifecycle::SnapshotCreated,
    {
        StateMachine { state: VmLifecycle::SnapshotCreated }
    }

    pub fn state(&self) -> (r: VmLifecycle)
        ensures
            r == self@,
    {
        self.state
    }

    /// Goes to the state `next` if that is valid; else the state is kept.
    pub fn transition(&mut self, next: VmLifecycle) -> (r: Result<(), CofferError>)
        ensures
            r is Ok <==> allowed(old(self)@, next),
            r is Ok ==> final(self)@ == next,
            r matches Err(e) ==> final(self)@ == old(self)@ && e@ == transition_error(
                old(self)@,
                next,
            ),
    {
        if self.state.can_transition_to(next) {
            self.state = next;
            Ok(())
        } else {
            Err(
                CofferError::InvalidVmState {
                    id: "unknown".to_owned(),
                    expected: cat3("transition from ", self.state.name(), " to valid state"),
                    actual: next.name().to_owned(),
                },
            )
        }
    }
}

impl Default for StateMachine {
    fn default() -> (r: StateMachine)
        ensures
            r@ == VmLifecycle::Unconfigured,
    {
        StateMachine::new()
    }
}

// ---------------------------------------------------------------------
// Laws
// ---------------------------------------------------------------------

/// Whether each state of a history may be followed by the next one.
pub open spec fn is_history(h: Seq<VmLifecycle>) -> bool {
    forall|i: int| 0 <= i < h.len() - 1 ==> allowed(#[trigger] h[i], h[i + 1])
}

/// Nothing follows the end of a VM, and no state follows itself.
pub proof fn law_exited_is_final(s: VmLifecycle)
    ensures
        !allowed(VmLifecycle::Exited, s),
        !allowed(s, s),
{
}

/// A new VM cannot run, pause or take a snapshot before it was configured: the
/// second state of its history is always the configured one, and it never comes
/// back to its first.
pub proof fn law_configured_first(h: Seq<VmLifecycle>, k: int)
    requires
        is_history(h),
        h.len() > 0,
        h[0] == VmLifecycle::Unconfigured,
        0 < k < h.len(),
    ensures
        h[1] == VmLifecycle::Configured,
        h[k] != VmLifecycle::Unconfigured,
    decreases k,
{
    assert(allowed(h[0], h[1]));
    assert(allowed(h[k - 1], h[k]));
}

/// A snapshot is only ever taken of a paused VM, and loaded only where one was
/// taken.
pub proof fn law_snapshot_order(from: VmLifecycle)
    ensures
        allowed(from, VmLifecycle::SnapshotCreated) <==> from == VmLifecycle::Paused,
        allowed(from, VmLifecycle::SnapshotLoaded) <==> from == VmLifecycle::SnapshotCreated,
{
}

/// What leads to each state: only what was not yet configured becomes configured;
/// what is configured, stands still or comes from a snapshot may run; only what
/// runs is paused; and only a VM that has a kernel and no snapshot in the making
/// ends.
pub proof fn law_what_leads_where(from: VmLifecycle, to: VmLifecycle, r: bool)
    requires
        call_ensures(VmLifecycle::can_transition_to, (&from, to), r),
    ensures
        to == VmLifecycle::Unconfigured ==> !r,
        to == VmLifecycle::Configured ==> (r <==> from == VmLifecycle::Unconfigured),
        to == VmLifecycle::Running ==> (r <==> from == VmLifecycle::Configured || from
            == VmLifecycle::Paused || from == VmLifecycle::SnapshotCreated || from
            == VmLifecycle::SnapshotLoaded),
        to == VmLifecycle::Paused ==> (r <==> from == VmLifecycle::Running),
        to == VmLifecycle::SnapshotCreated ==> (r <==> from == VmLifecycle::Paused),
        to == VmLifecycle::SnapshotLoaded ==> (r <==> from == VmLifecycle::SnapshotCreated),
        to == VmLifecycle::Exited ==> (r <==> from == VmLifecycle::Configured || from
            == VmLifecycle::Running || from == VmLifecycle::Paused),
{
}

/// A machine goes where it may and stays where it is otherwise, and the refusal
/// names the state that it stays in and the one that was asked for.
pub proof fn law_machine_goes_where_it_may(
    m: &mut StateMachine,
    next: VmLifecycle,
    r: Result<(), CofferError>,
    may: bool,
    from_name: &'static str,
    to_name: &'static str,
)
    requires
        call_ensures(StateMachine::transition, (m, next), r),
        call_ensures(VmLifecycle::can_transition_to, (&old(m)@, next), may),
        call_ensures(VmLifecycle::name, (&old(m)@,), from_name),
        call_ensures(VmLifecycle::name, (&next,), to_name),
    ensures
        r is Ok <==> may,
        final(m)@ == if may {
            next
        } else {
            old(m)@
        },
        r matches Err(e) ==> (e@ matches ErrorView::InvalidVmState { expected, actual, .. } && actual
            == to_name@ && crate::text::occurs(expected, from_name@)),
{
    if r is Err {
        let t = r->Err_0@->InvalidVmState_expected;
        let i = "transition from "@.len() as int;
        assert(t.subrange(i, i + from_name@.len()) =~= from_name@);
        assert(crate::text::occurs_at(t, from_name@, i));
    }
}

/// The names tell the states apart.
pub proof fn law_names_tell_apart(
    a: VmLifecycle,
    b: VmLifecycle,
    x: &'static str,
    y: &'static str,
)
    requires
        call_ensures(VmLifecycle::name, (&a,), x),
        call_ensures(VmLifecycle::name, (&b,), y),
        x@ == y@,
    ensures
        a == b,
{
    reveal_strlit("unconfigured");
    reveal_strlit("configured");
    reveal_strlit("running");
    reveal_strlit("paused");
    reveal_strlit("snapshot_created");
    reveal_strlit("snapshot_loaded");
    reveal_strlit("exited");
    assert("paused"@[0] == 'p' && "exited"@[0] == 'e');
    assert(state_name(a).len() == state_name(b).len());
    assert(state_name(a)[0] == state_name(b)[0]);
}

} // verus!
