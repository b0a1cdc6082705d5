//! Global resource scheduler for limiting total memory, vCPUs, and instances.

use vstd::prelude::*;

use crate::config::ResourceLimits;
use crate::error::{CofferError, ErrorView};
use crate::text::{first_index, lemma_first_index, Text};

verus! {

broadcast use vstd::string::group_string_axioms;

/// What is reserved, and the limits on it.
pub struct SchedulerState {
    pub instances: u64,
    pub memory_mib: u64,
    pub vcpus: u64,
    pub max_instances: usize,
    pub max_memory_mib: u64,
    pub max_vcpus: u32,
}

impl SchedulerState {
    /// Nothing exceeds its limit.
    pub open spec fn within_limits(self) -> bool {
        &&& self.instances <= self.max_instances
        &&& self.memory_mib <= self.max_memory_mib
        &&& self.vcpus <= self.max_vcpus
    }
}

/// Tracks global resource usage across all pools.
#[derive(Debug)]
pub struct ResourceScheduler {
    limits: ResourceLimits,
    total_instances: u64,
    total_memory_mib: u64,
    total_vcpus: u64,
}

impl View for ResourceScheduler {
    type V = SchedulerState;

    closed spec fn view(&self) -> SchedulerState {
        SchedulerState {
            instances: self.total_instances,
            memory_mib: self.total_memory_mib,
            vcpus: self.total_vcpus,
            max_instances: self.limits.max_total_instances,
            max_memory_mib: self.limits.max_total_memory_mib,
            max_vcpus: self.limits.max_total_vcpus,
        }
    }
}

/// The error of a reservation that would exceed a limit.
pub open spec fn limit_error(resource: Text, used: u64, limit: u64) -> ErrorView {
    ErrorView::ResourceLimit { resource, used, limit }
}

/// Why a reservation is refused, if it is. Instances are looked at first, then
/// memory, then vCPUs.
pub open spec fn refusal(s: SchedulerState, memory_mib: u64, vcpus: u32) -> Option<ErrorView> {
    if s.instances + 1 > s.max_instances {
        Some(limit_error("instances"@, s.instances, s.max_instances as u64))
    } else if s.memory_mib + memory_mib > s.max_memory_mib {
        Some(limit_error("memory_mib"@, s.memory_mib, s.max_memory_mib))
    } else if s.vcpus + vcpus > s.max_vcpus {
        Some(limit_error("vcpus"@, s.vcpus, s.max_vcpus as u64))
    } else {
        None
    }
}

/// What is reserved after one more instance.
pub open spec fn with_one_more(s: SchedulerState, memory_mib: u64, vcpus: u32) -> SchedulerState {
    SchedulerState {
        instances: (s.instances + 1) as u64,
        memory_mib: (s.memory_mib + memory_mib) as u64,
        vcpus: (s.vcpus + vcpus) as u64,
        ..s
    }
}

/// `a - b` in 64 bits, around zero where `b` is larger.
pub open spec fn wrapping_diff(a: u64, b: u64) -> u64 {
    if a >= b {
        (a - b) as u64
    } else {
        (a - b + 0x1_0000_0000_0000_0000) as u64
    }
}

/// What is reserved after one instance less.
pub open spec fn with_one_less(s: SchedulerState, memory_mib: u64, vcpus: u32) -> SchedulerState {
    SchedulerState {
        instances: wrapping_diff(s.instances, 1),
        memory_mib: wrapping_diff(s.memory_mib, memory_mib),
        vcpus: wrapping_diff(s.vcpus, vcpus as u64),
        ..s
    }
}

fn limit_reached(resource: &str, used: u64, limit: u64) -> (r: Result<(), CofferError>)
    ensures
        r matches Err(e) && e@ == limit_error(resource@, used, limit),
{
    Err(CofferError::ResourceLimit { resource: resource.to_owned(), used, limit })
}

/// Whether `a + b` is larger than `limit`.
fn exceeds(a: u64, b: u64, limit: u64) -> (r: bool)
    ensures
        r == (a + b > limit),
{
    a > limit || b > limit - a
}

/// Nothing is reserved.
pub open spec fn idle(limits: ResourceLimits) -> SchedulerState {
    SchedulerState {
        instances: 0,
        memory_mib: 0,
        vcpus: 0,
        max_instances: limits.max_total_instances,
        max_memory_mib: limits.max_total_memory_mib,
        max_vcpus: limits.max_total_vcpus,
    }
}

impl ResourceScheduler {
    pub fn new(limits: ResourceLimits) -> (r: ResourceScheduler)
        ensures
            r@ == idle(limits),
            r@.within_limits(),
    {
        ResourceScheduler { limits, total_instances: 0, total_memory_mib: 0, total_vcpus: 0 }
    }

    /// Reserves resources for a new instance, unless a limit would be exceeded;
    /// then nothing is reserved.
    pub fn reserve(&mut self, memory_mib: u64, vcpus: u32) -> (r: Result<(), CofferError>)
        ensures
            match r {
                Ok(_) => refusal(old(self)@, memory_mib, vcpus) is None && final(self)@
                    == with_one_more(old(self)@, memory_mib, vcpus),
                Err(e) => refusal(old(self)@, memory_mib, vcpus) == Some(e@) && final(self)@ == old(
                    self,
                )@,
            },
    {
        let max_instances: u64 = self.limits.max_total_instances as u64;
        if exceeds(self.total_instances, 1, max_instances) {
            return limit_reached("instances", self.total_instances, max_instances);
        }
        if exceeds(self.total_memory_mib, memory_mib, self.limits.max_total_memory_mib) {
            return limit_reached(
                "memory_mib",
                self.total_memory_mib,
                self.limits.max_total_memory_mib,
            );
        }
        let max_vcpus: u64 = self.limits.max_total_vcpus as u64;
        if exceeds(self.total_vcpus, vcpus as u64, max_vcpus) {
            return limit_reached("vcpus", self.total_vcpus, max_vcpus);
        }
        self.total_instances = self.total_instances + 1;
        self.total_memory_mib = self.total_memory_mib + memory_mib;
        self.total_vcpus = self.total_vcpus + vcpus as u64;
        Ok(())
    }

    /// Looks whether memory would suffice, and reserves nothing.
    pub fn reserve_memory(&self, estimated_mib: u64) -> (r: Result<(), CofferError>)
        ensures
            r is Ok <==> self@.memory_mib + estimated_mib <= self@.max_memory_mib,
            r matches Err(e) ==> e@ == limit_error(
                "memory_mib"@,
                self@.memory_mib,
                self@.max_memory_mib,
            ),
    {
        if exceeds(self.total_memory_mib, estimated_mib, self.limits.max_total_memory_mib) {
            return limit_reached(
                "memory_mib",
                self.total_memory_mib,
                self.limits.max_total_memory_mib,
            );
        }
        Ok(())
    }

    /// Gives back the resources of an instance.
    pub fn release(&mut self, memory_mib: u64, vcpus: u32)
        ensures
            final(self)@ == with_one_less(old(self)@, memory_mib, vcpus),
    {
        self.total_instances = self.total_instances.wrapping_sub(1);
        self.total_memory_mib = self.total_memory_mib.wrapping_sub(memory_mib);
        self.total_vcpus = self.total_vcpus.wrapping_sub(vcpus as u64);
    }

    /// What is reserved at present.
    pub fn usage(&self) -> (r: Usage)
        ensures
            r.instances == self@.instances,
            r.memory_mib == self@.memory_mib,
            r.vcpus == self@.vcpus as u32,
            self@.vcpus <= u32::MAX ==> r.vcpus == self@.vcpus,
    {
        Usage {
            instances: self.total_instances,
            memory_mib: self.total_memory_mib,
            vcpus: self.total_vcpus as u32,
        }
    }
}

/// What is reserved.
#[derive(Debug, Clone, Copy)]
pub struct Usage {
    pub instances: u64,
    pub memory_mib: u64,
    pub vcpus: u32,
}

// ---------------------------------------------------------------------
// Laws
// ---------------------------------------------------------------------

/// No reservation ever takes more than the limits allow.
pub proof fn law_reserve_keeps_limits(s: SchedulerState, memory_mib: u64, vcpus: u32)
    requires
        s.within_limits(),
        refusal(s, memory_mib, vcpus) is None,
    ensures
        with_one_more(s, memory_mib, vcpus).within_limits(),
{
}

/// Releasing what was reserved restores what was before.
pub proof fn law_release_undoes_reserve(s: SchedulerState, memory_mib: u64, vcpus: u32)
    requires
        refusal(s, memory_mib, vcpus) is None,
    ensures
        with_one_less(with_one_more(s, memory_mib, vcpus), memory_mib, vcpus) == s,
{
}

/// What was granted once is granted again after a release.
pub proof fn law_released_can_be_reserved(s: SchedulerState, memory_mib: u64, vcpus: u32)
    requires
        s.within_limits(),
        s.instances >= 1,
        s.memory_mib >= memory_mib,
        s.vcpus >= vcpus,
    ensures
        refusal(with_one_less(s, memory_mib, vcpus), memory_mib, vcpus) is None,
        with_one_less(s, memory_mib, vcpus).within_limits(),
{
}

/// A reservation is granted if and only if each of the three limits allows it.
pub proof fn law_granted_iff_it_fits(s: SchedulerState, memory_mib: u64, vcpus: u32)
    ensures
        refusal(s, memory_mib, vcpus) is None <==> (s.instances + 1 <= s.max_instances
            && s.memory_mib + memory_mib <= s.max_memory_mib && s.vcpus + vcpus <= s.max_vcpus),
{
}

/// A call of the scheduler.
pub enum Call {
    Reserve { memory_mib: u64, vcpus: u32 },
    ReserveMemory { estimated_mib: u64 },
    Release { memory_mib: u64, vcpus: u32 },
}

/// A scheduler in a run of calls, with the reservations that were granted in the
/// run and not yet released, each by its memory and vCPUs.
pub struct Run {
    pub state: SchedulerState,
    pub live: Seq<(u64, u32)>,
}

/// The run after one more call. A release ends the first live reservation of its
/// size.
pub open spec fn after_call(run: Run, call: Call) -> Run {
    match call {
        Call::Reserve { memory_mib, vcpus } => if refusal(run.state, memory_mib, vcpus) is None {
            Run {
                state: with_one_more(run.state, memory_mib, vcpus),
                live: run.live.push((memory_mib, vcpus)),
            }
        } else {
            run
        },
        Call::ReserveMemory { .. } => run,
        Call::Release { memory_mib, vcpus } => Run {
            state: with_one_less(run.state, memory_mib, vcpus),
            live: run.live.remove(first_index(run.live, (memory_mib, vcpus))),
        },
    }
}

/// The run after some calls that start at `state`, one at a time.
pub open spec fn after_calls(state: SchedulerState, calls: Seq<Call>) -> Run
    decreases calls.len(),
{
    if calls.len() == 0 {
        Run { state, live: seq![] }
    } else {
        after_call(after_calls(state, calls.drop_last()), calls.last())
    }
}

/// Each release matches a reservation of the run that is live when it comes.
pub open spec fn releases_match(state: SchedulerState, calls: Seq<Call>) -> bool
    decreases calls.len(),
{
    calls.len() > 0 ==> {
        &&& releases_match(state, calls.drop_last())
        &&& calls.last() matches Call::Release { memory_mib, vcpus } ==> after_calls(
            state,
            calls.drop_last(),
        ).live.contains((memory_mib, vcpus))
    }
}

/// The memory of some reservations.
pub open spec fn memory_of(live: Seq<(u64, u32)>) -> nat
    decreases live.len(),
{
    if live.len() == 0 {
        0
    } else {
        memory_of(live.drop_last()) + live.last().0 as nat
    }
}

/// The vCPUs of some reservations.
pub open spec fn vcpus_of(live: Seq<(u64, u32)>) -> nat
    decreases live.len(),
{
    if live.len() == 0 {
        0
    } else {
        vcpus_of(live.drop_last()) + live.last().1 as nat
    }
}

proof fn lemma_sums_remove(live: Seq<(u64, u32)>, k: int)
    requires
        0 <= k < live.len(),
    ensures
        memory_of(live) == memory_of(live.remove(k)) + live[k].0,
        vcpus_of(live) == vcpus_of(live.remove(k)) + live[k].1,
    decreases live.len(),
{
    if k == live.len() - 1 {
        assert(live.remove(k) =~= live.drop_last());
    } else {
        let head = live.drop_last();
        lemma_sums_remove(head, k);
        assert(live.remove(k).drop_last() =~= head.remove(k));
        assert(live.remove(k).last() == live.last());
    }
}

/// The limits stay as they are.
pub open spec fn same_limits(a: SchedulerState, b: SchedulerState) -> bool {
    &&& a.max_instances == b.max_instances
    &&& a.max_memory_mib == b.max_memory_mib
    &&& a.max_vcpus == b.max_vcpus
}

/// Over a run of calls in which every release matches a live reservation, what is
/// reserved is what was reserved before, and the number and the sums of the live
/// reservations; it stays within the limits.
pub proof fn law_usage_is_what_lives(state: SchedulerState, calls: Seq<Call>)
    requires
        state.within_limits(),
        releases_match(state, calls),
    ensures
        ({
            let run = after_calls(state, calls);
            &&& run.state.instances == state.instances + run.live.len()
            &&& run.state.memory_mib == state.memory_mib + memory_of(run.live)
            &&& run.state.vcpus == state.vcpus + vcpus_of(run.live)
            &&& run.state.within_limits()
            &&& same_limits(run.state, state)
        }),
    decreases calls.len(),
{
    if calls.len() > 0 {
        let before = after_calls(state, calls.drop_last());
        law_usage_is_what_lives(state, calls.drop_last());
        match calls.last() {
            Call::Reserve { memory_mib, vcpus } => {
                assert(before.live.push((memory_mib, vcpus)).drop_last() =~= before.live);
            },
            Call::ReserveMemory { .. } => {},
            Call::Release { memory_mib, vcpus } => {
                lemma_first_index(before.live, (memory_mib, vcpus));
                lemma_sums_remove(before.live, first_index(before.live, (memory_mib, vcpus)));
            },
        }
    }
}

/// Of a new scheduler the usage is the number and the sums of the live
/// reservations, within the limits.
pub proof fn law_usage_of_a_new_scheduler(limits: ResourceLimits, calls: Seq<Call>)
    requires
        releases_match(idle(limits), calls),
    ensures
        ({
            let run = after_calls(idle(limits), calls);
            &&& run.state.instances == run.live.len()
            &&& run.state.memory_mib == memory_of(run.live)
            &&& run.state.vcpus == vcpus_of(run.live)
            &&& run.state.instances <= limits.max_total_instances
            &&& run.state.memory_mib <= limits.max_total_memory_mib
            &&& run.state.vcpus <= limits.max_total_vcpus
        }),
{
    law_usage_is_what_lives(idle(limits), calls);
}

/// A release undoes the reservation of the same size whatever lies in between, as
/// long as every other reservation made in between is released there too: what is
/// reserved is as before, and the same reservation would be granted again.
pub proof fn law_release_undoes_reserve_across_calls(
    state: SchedulerState,
    memory_mib: u64,
    vcpus: u32,
    between: Seq<Call>,
)
    requires
        state.within_limits(),
        refusal(state, memory_mib, vcpus) is None,
        releases_match(with_one_more(state, memory_mib, vcpus), between),
        after_calls(with_one_more(state, memory_mib, vcpus), between).live.len() == 0,
    ensures
        ({
            let after = with_one_less(
                after_calls(with_one_more(state, memory_mib, vcpus), between).state,
                memory_mib,
                vcpus,
            );
            &&& after == state
            &&& refusal(after, memory_mib, vcpus) is None
        }),
{
    law_usage_is_what_lives(with_one_more(state, memory_mib, vcpus), between);
}

/// A refusal names the first resource that would run out, with what is in use of
/// it and what there is of it, and leaves everything as it was.
pub proof fn law_refusal_names_the_resource(
    s: &mut ResourceScheduler,
    memory_mib: u64,
    vcpus: u32,
    r: Result<(), CofferError>,
)
    requires
        call_ensures(ResourceScheduler::reserve, (s, memory_mib, vcpus), r),
    ensures
        r is Err <==> old(s)@.instances >= old(s)@.max_instances || old(s)@.memory_mib + memory_mib
            > old(s)@.max_memory_mib || old(s)@.vcpus + vcpus > old(s)@.max_vcpus,
        r is Err ==> final(s)@ == old(s)@,
        r is Ok ==> {
            &&& final(s)@.instances == old(s)@.instances + 1
            &&& final(s)@.memory_mib == old(s)@.memory_mib + memory_mib
            &&& final(s)@.vcpus == old(s)@.vcpus + vcpus
            &&& final(s)@.max_instances == old(s)@.max_instances
            &&& final(s)@.max_memory_mib == old(s)@.max_memory_mib
            &&& final(s)@.max_vcpus == old(s)@.max_vcpus
        },
        r matches Err(e) ==> (e@ matches ErrorView::ResourceLimit { resource, used, limit } && {
            ||| resource == "instances"@ && used == old(s)@.instances && limit
                == old(s)@.max_instances && used >= limit
            ||| resource == "memory_mib"@ && used == old(s)@.memory_mib && limit
                == old(s)@.max_memory_mib && used + memory_mib > limit
            ||| resource == "vcpus"@ && used == old(s)@.vcpus && limit == old(s)@.max_vcpus && used
                + vcpus > limit
        }),
{
}

/// What was reserved is in use, and given back it is not; an estimate of memory is
/// refused exactly where that memory could not be had.
pub proof fn law_reserved_is_used(
    s: &mut ResourceScheduler,
    memory_mib: u64,
    vcpus: u32,
    got: Result<(), CofferError>,
    held: &ResourceScheduler,
    used: Usage,
    estimated_mib: u64,
    fits: Result<(), CofferError>,
    t: &mut ResourceScheduler,
    freed: &ResourceScheduler,
    left: Usage,
)
    requires
        old(s)@.within_limits(),
        call_ensures(ResourceScheduler::reserve, (s, memory_mib, vcpus), got),
        got is Ok,
        *held == *final(s),
        held@.vcpus <= u32::MAX,
        call_ensures(ResourceScheduler::usage, (held,), used),
        call_ensures(ResourceScheduler::reserve_memory, (held, estimated_mib), fits),
        *old(t) == *final(s),
        call_ensures(ResourceScheduler::release, (t, memory_mib, vcpus), ()),
        *freed == *final(t),
        call_ensures(ResourceScheduler::usage, (freed,), left),
    ensures
        used.instances == old(s)@.instances + 1,
        used.memory_mib == old(s)@.memory_mib + memory_mib,
        used.vcpus == old(s)@.vcpus + vcpus,
        left.instances == old(s)@.instances,
        left.memory_mib == old(s)@.memory_mib,
        left.vcpus == old(s)@.vcpus,
        fits is Ok <==> used.memory_mib + estimated_mib <= old(s)@.max_memory_mib,
        fits matches Err(e) ==> (e@ matches ErrorView::ResourceLimit { resource, used: u, limit }
            && resource == "memory_mib"@ && u == used.memory_mib && limit
            == old(s)@.max_memory_mib),
{
    law_release_undoes_reserve(old(s)@, memory_mib, vcpus);
}

} // verus!
