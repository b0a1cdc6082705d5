//! Warm pool: pre-created MicroVMs that are ready for instant resume.

pub mod scheduler;

use dashmap::DashMap;
use vstd::prelude::*;

use crate::maps::{list_insert, list_lengths, list_map, list_remove, lists_in, row, rows, text_insert, text_len,
    text_map, text_remove, texts_in};
use crate::numeric::{hex2, hex2_text, lemma_hex2_value, parsed};
use crate::text::{strs, Text};

verus! {

broadcast use vstd::string::group_string_axioms;

/// A VM that has been pre-created and paused, ready for resume.
#[derive(Debug)]
pub struct PooledVm {
    pub vm_id: String,
    pub socket_path: String,
    pub vsock_path: String,
}

impl View for PooledVm {
    type V = (Text, Text, Text);

    open spec fn view(&self) -> (Text, Text, Text) {
        (self.vm_id@, self.socket_path@, self.vsock_path@)
    }
}

/// What the background worker is asked to do.
#[derive(Debug)]
pub enum PoolCommand {
    Warm { template_id: String },
    Release { vm_id: String, vsock_path: String },
    Destroy { vm_id: String },
}

pub enum PoolCommandView {
    Warm { template_id: Text },
    Release { vm_id: Text, vsock_path: Text },
    Destroy { vm_id: Text },
}

impl View for PoolCommand {
    type V = PoolCommandView;

    open spec fn view(&self) -> PoolCommandView {
        match *self {
            PoolCommand::Warm { template_id } => PoolCommandView::Warm {
                template_id: template_id@,
            },
            PoolCommand::Release { vm_id, vsock_path } => PoolCommandView::Release {
                vm_id: vm_id@,
                vsock_path: vsock_path@,
            },
            PoolCommand::Destroy { vm_id } => PoolCommandView::Destroy { vm_id: vm_id@ },
        }
    }
}

/// The views of a sequence of commands.
pub open spec fn pool_commands(v: Seq<PoolCommand>) -> Seq<PoolCommandView> {
    v.map_values(|c: PoolCommand| c@)
}

/// What the background worker does for a command.
#[derive(Debug)]
pub enum WorkerAction {
    /// Warm one VM of this template.
    Warm(String),
    /// Remove this file where it exists.
    RemoveFile(String),
    Nothing,
}

/// The state of a pool.
pub struct PoolState {
    /// How many VMs are kept warm of each template.
    pub size: usize,
    /// Of each template the VMs that wait, the one that came last at the end.
    pub available: Map<Text, Seq<(Text, Text, Text)>>,
    /// Of each VM in use, the template that it came from.
    pub in_use: Map<Text, Text>,
}

impl PoolState {
    /// The VMs of a template that wait.
    pub open spec fn waiting(self, template_id: Text) -> Seq<(Text, Text, Text)> {
        if self.available.dom().contains(template_id) {
            self.available[template_id]
        } else {
            seq![]
        }
    }

    /// The pool with the given VMs of a template waiting.
    pub open spec fn with_waiting(self, template_id: Text, vms: Seq<(Text, Text, Text)>) -> PoolState {
        PoolState { available: self.available.insert(template_id, vms), ..self }
    }

    /// No template has more VMs waiting than are kept warm.
    pub open spec fn bounded(self) -> bool {
        forall|t: Text| #[trigger] self.waiting(t).len() <= self.size
    }
}

/// Warm pool maintains a queue of paused VMs per template.
pub struct WarmPool {
    size: usize,
    available: DashMap<String, Vec<(String, String, String)>>,
    in_use: DashMap<String, String>,
}

impl View for WarmPool {
    type V = PoolState;

    closed spec fn view(&self) -> PoolState {
        PoolState {
            size: self.size,
            available: lists_in(self.available),
            in_use: texts_in(self.in_use),
        }
    }
}

/// Every one of `ids` is counted in `r`.
pub open spec fn names_all(r: Seq<(String, usize)>, ids: Set<Text>) -> bool {
    forall|k: Text| #[trigger]
        ids.contains(k) ==> exists|i: int| 0 <= i < r.len() && (#[trigger] r[i]).0@ == k
}

/// The pool after a VM was asked for, and the VM, if there is one: the one that
/// came last leaves first.
pub open spec fn acquired(s: PoolState, template_id: Text) -> (PoolState, Option<
    (Text, Text, Text),
>) {
    let q = s.waiting(template_id);
    if q.len() == 0 {
        (s.with_waiting(template_id, q), None)
    } else {
        let vm = q.last();
        (
            PoolState {
                in_use: s.in_use.insert(vm.0, template_id),
                ..s.with_waiting(template_id, q.drop_last())
            },
            Some(vm),
        )
    }
}

/// The pool after a VM was released, and whether it waits again: it does where
/// it was in use and fewer VMs of its template wait than are kept warm.
pub open spec fn released(s: PoolState, vm: (Text, Text, Text)) -> (PoolState, bool) {
    if s.in_use.dom().contains(vm.0) {
        let t = s.in_use[vm.0];
        let q = s.waiting(t);
        let rest = PoolState { in_use: s.in_use.remove(vm.0), ..s };
        if q.len() < s.size {
            (rest.with_waiting(t, q.push(vm)), true)
        } else {
            (rest.with_waiting(t, q), false)
        }
    } else {
        (s, false)
    }
}

impl WarmPool {
    /// An empty pool that keeps `warm_pool_size` VMs of each template.
    pub fn new(warm_pool_size: usize) -> (r: WarmPool)
        ensures
            r@ == (PoolState {
                size: warm_pool_size,
                available: Map::empty(),
                in_use: Map::empty(),
            }),
    {
        let available = list_map();
        let in_use = text_map();
        assert(lists_in(available) =~= Map::<Text, Seq<(Text, Text, Text)>>::empty());
        assert(texts_in(in_use) =~= Map::<Text, Text>::empty());
        WarmPool { size: warm_pool_size, available, in_use }
    }

    /// Takes the queue of a template out of the pool.
    fn take_queue(&mut self, template_id: &str) -> (r: Vec<(String, String, String)>)
        ensures
            rows(r@) == old(self)@.waiting(template_id@),
            final(self)@ == (PoolState {
                available: old(self)@.available.remove(template_id@),
                ..old(self)@
            }),
    {
        match list_remove(&mut self.available, template_id) {
            Some(q) => q,
            None => {
                let q: Vec<(String, String, String)> = Vec::new();
                assert(rows(q@) =~= Seq::<(Text, Text, Text)>::empty());
                q
            },
        }
    }

    /// Acquire a VM from the warm pool.
    pub fn acquire(&mut self, template_id: &str) -> (r: Option<PooledVm>)
        ensures
            final(self)@ == acquired(old(self)@, template_id@).0,
            match r {
                Some(vm) => acquired(old(self)@, template_id@).1 == Some(vm@),
                None => acquired(old(self)@, template_id@).1 is None,
            },
    {
        let ghost before = self@;
        let mut queue = self.take_queue(template_id);
        let ghost q = queue@;
        let last = queue.pop();
        list_insert(&mut self.available, template_id.to_owned(), queue);
        proof {
            assert(rows(q) == before.waiting(template_id@));
            if q.len() == 0 {
                assert(rows(queue@) =~= before.waiting(template_id@));
            } else {
                assert(rows(queue@) =~= before.waiting(template_id@).drop_last());
                assert(row(q.last()) == before.waiting(template_id@).last());
            }
            assert(self@.available =~= before.with_waiting(
                template_id@,
                rows(queue@),
            ).available);
        }
        match last {
            Some((vm_id, socket_path, vsock_path)) => {
                text_insert(&mut self.in_use, vm_id.clone(), template_id.to_owned());
                Some(PooledVm { vm_id, socket_path, vsock_path })
            },
            None => None,
        }
    }

    /// Takes note of a VM of a template that is in use, though it did not wait.
    pub fn lend(&mut self, template_id: &str, vm_id: &str)
        ensures
            final(self)@ == (PoolState {
                in_use: old(self)@.in_use.insert(vm_id@, template_id@),
                ..old(self)@
            }),
    {
        text_insert(&mut self.in_use, vm_id.to_owned(), template_id.to_owned());
    }

    /// Release a VM back to the pool: it is no longer in use, and waits for the
    /// next caller that asks for its template. A VM that cannot wait, as enough
    /// others do or as it was not in use, is handed back to be ended.
    pub fn release(&mut self, vm: PooledVm) -> (r: Option<PooledVm>)
        ensures
            final(self)@ == released(old(self)@, vm@).0,
            r is None <==> released(old(self)@, vm@).1,
            r matches Some(v) ==> v == vm,
    {
        let ghost before = self@;
        let template_id = match text_remove(&mut self.in_use, vm.vm_id.as_str()) {
            Some(t) => t,
            None => {
                assert(self@.in_use =~= before.in_use);
                return Some(vm);
            },
        };
        if self.wants_warm(template_id.as_str()) {
            self.add(template_id.as_str(), vm);
            assert(self@.available =~= released(before, vm@).0.available);
            None
        } else {
            Some(vm)
        }
    }

    /// Whether fewer VMs of a template wait than are kept warm.
    fn wants_warm(&mut self, template_id: &str) -> (r: bool)
        ensures
            r == (old(self)@.waiting(template_id@).len() < old(self)@.size),
            final(self)@ == old(self)@.with_waiting(
                template_id@,
                old(self)@.waiting(template_id@),
            ),
    {
        let ghost before = self@;
        let queue = self.take_queue(template_id);
        let wants = queue.len() < self.size;
        assert(rows(queue@).len() == queue@.len());
        list_insert(&mut self.available, template_id.to_owned(), queue);
        assert(self@.available =~= before.with_waiting(
            template_id@,
            before.waiting(template_id@),
        ).available);
        wants
    }

    /// What the background worker does for a command. A VM is warmed only while
    /// its template has too few; a released VM is cleaned up.
    pub fn handle(&mut self, cmd: PoolCommand) -> (r: WorkerAction)
        ensures
            match cmd {
                PoolCommand::Warm { template_id } => {
                    &&& final(self)@ == old(self)@.with_waiting(
                        template_id@,
                        old(self)@.waiting(template_id@),
                    )
                    &&& if old(self)@.waiting(template_id@).len() < old(self)@.size {
                        r == WorkerAction::Warm(template_id)
                    } else {
                        r is Nothing
                    }
                },
                PoolCommand::Release { vsock_path, .. } => final(self)@ == old(self)@ && r
                    == WorkerAction::RemoveFile(vsock_path),
                PoolCommand::Destroy { .. } => final(self)@ == old(self)@ && r is Nothing,
            },
    {
        match cmd {
            PoolCommand::Warm { template_id } => {
                if self.wants_warm(template_id.as_str()) {
                    WorkerAction::Warm(template_id)
                } else {
                    WorkerAction::Nothing
                }
            },
            PoolCommand::Release { vm_id: _, vsock_path } => WorkerAction::RemoveFile(vsock_path),
            PoolCommand::Destroy { vm_id: _ } => WorkerAction::Nothing,
        }
    }

    /// Puts a warmed VM into the queue of its template.
    pub fn add(&mut self, template_id: &str, vm: PooledVm)
        ensures
            final(self)@ == old(self)@.with_waiting(
                template_id@,
                old(self)@.waiting(template_id@).push(vm@),
            ),
    {
        let ghost before = self@;
        let mut queue = self.take_queue(template_id);
        let ghost q = queue@;
        queue.push((vm.vm_id, vm.socket_path, vm.vsock_path));
        assert(rows(queue@) =~= rows(q).push(vm@));
        list_insert(&mut self.available, template_id.to_owned(), queue);
        assert(self@.available =~= before.with_waiting(
            template_id@,
            before.waiting(template_id@).push(vm@),
        ).available);
    }

    /// How many VMs are in use.
    pub fn in_use_count(&self) -> (r: usize)
        ensures
            r == self@.in_use.dom().len(),
    {
        text_len(&self.in_use)
    }

    /// How many VMs of each template wait, in no particular order.
    pub fn available_counts(&self) -> (r: Vec<(String, usize)>)
        ensures
            forall|i: int|
                0 <= i < r@.len() ==> self@.available.dom().contains((#[trigger] r@[i]).0@)
                    && r@[i].1 == self@.available[r@[i].0@].len(),
            forall|i: int, j: int|
                0 <= i < j < r@.len() ==> (#[trigger] r@[i]).0@ != (#[trigger] r@[j]).0@,
            forall|k: Text|
                self@.available.dom().contains(k) ==> exists|i: int|
                    0 <= i < r@.len() && (#[trigger] r@[i]).0@ == k,
            names_all(r@, self@.available.dom()),
    {
        list_lengths(&self.available)
    }

    /// The commands that warm the pool at its start: of each template as many
    /// VMs as are kept warm.
    pub fn prewarm(&self, template_ids: &Vec<String>) -> (r: Vec<PoolCommand>)
        ensures
            pool_commands(r@) == prewarm_commands(strs(template_ids@), self@.size as nat),
    {
        let mut out: Vec<PoolCommand> = Vec::new();
        let ghost ids = strs(template_ids@);
        let mut i: usize = 0;
        assert(pool_commands(out@) =~= prewarm_commands(ids.take(0), self.size as nat));
        while i < template_ids.len()
            invariant
                i <= template_ids@.len(),
                ids == strs(template_ids@),
                pool_commands(out@) == prewarm_commands(ids.take(i as int), self.size as nat),
            decreases template_ids@.len() - i,
        {
            let ghost start = out@;
            let mut k: usize = 0;
            assert(pool_commands(out@) =~= pool_commands(start) + warm_commands(ids[i as int], 0));
            while k < self.size
                invariant
                    i < template_ids@.len(),
                    ids == strs(template_ids@),
                    k <= self.size,
                    pool_commands(out@) == pool_commands(start) + warm_commands(
                        ids[i as int],
                        k as nat,
                    ),
                decreases self.size - k,
            {
                let ghost before = out@;
                out.push(PoolCommand::Warm { template_id: template_ids[i].clone() });
                k = k + 1;
                proof {
                    assert(pool_commands(out@) =~= pool_commands(before).push(
                        PoolCommandView::Warm { template_id: ids[i as int] },
                    ));
                    assert(pool_commands(out@) =~= pool_commands(start) + warm_commands(
                        ids[i as int],
                        k as nat,
                    ));
                }
            }
            proof {
                assert(ids.take(i + 1).drop_last() =~= ids.take(i as int));
                assert(ids.take(i + 1).last() == ids[i as int]);
            }
            i = i + 1;
        }
        assert(ids.take(i as int) =~= ids);
        out
    }

    /// The commands that the periodic check gives: one for each template.
    pub fn rebalance(&self, template_ids: &Vec<String>) -> (r: Vec<PoolCommand>)
        ensures
            pool_commands(r@) == strs(template_ids@).map_values(
                |id: Text| PoolCommandView::Warm { template_id: id },
            ),
    {
        let mut out: Vec<PoolCommand> = Vec::new();
        let mut i: usize = 0;
        while i < template_ids.len()
            invariant
                i <= template_ids@.len(),
                out@.len() == i,
                forall|j: int|
                    0 <= j < i ==> (#[trigger] out@[j])@ == (PoolCommandView::Warm {
                        template_id: template_ids@[j]@,
                    }),
            decreases template_ids@.len() - i,
        {
            out.push(PoolCommand::Warm { template_id: template_ids[i].clone() });
            i = i + 1;
        }
        assert(pool_commands(out@) =~= strs(template_ids@).map_values(
            |id: Text| PoolCommandView::Warm { template_id: id },
        ));
        out
    }
}

/// `n` commands that warm a VM of a template.
pub open spec fn warm_commands(template_id: Text, n: nat) -> Seq<PoolCommandView> {
    Seq::new(n, |i: int| PoolCommandView::Warm { template_id })
}

/// For each template `n` commands that warm a VM of it.
pub open spec fn prewarm_commands(ids: Seq<Text>, n: nat) -> Seq<PoolCommandView>
    decreases ids.len(),
{
    if ids.len() == 0 {
        seq![]
    } else {
        prewarm_commands(ids.drop_last(), n) + warm_commands(ids.last(), n)
    }
}

// ---------------------------------------------------------------------
// Context identifiers
// ---------------------------------------------------------------------

/// Gives out context identifiers, one after the other.
#[derive(Debug)]
pub struct CidCounter {
    next: u32,
}

impl View for CidCounter {
    type V = u32;

    closed spec fn view(&self) -> u32 {
        self.next
    }
}

/// The number after `n`, around zero.
pub open spec fn following(n: u32) -> u32 {
    if n == u32::MAX {
        0
    } else {
        (n + 1) as u32
    }
}

impl CidCounter {
    /// The first identifier is 1024.
    pub fn new() -> (r: CidCounter)
        ensures
            r@ == 1024,
    {
        CidCounter { next: 1024 }
    }

    /// The next identifier.
    pub fn take(&mut self) -> (r: u32)
        ensures
            r == old(self)@,
            final(self)@ == following(old(self)@),
    {
        let cid = self.next;
        self.next = self.next.wrapping_add(1);
        cid
    }
}

/// The hardware address of a guest: its lower three bytes are those of its
/// context identifier.
pub open spec fn mac_text(cid: u32) -> Text {
    "02:00:00:"@ + hex2((cid / 65536 % 256) as int) + ":"@ + hex2((cid / 256 % 256) as int) + ":"@
        + hex2((cid % 256) as int)
}

/// The hardware address of a guest.
pub fn guest_mac(cid: u32) -> (r: String)
    ensures
        r@ == mac_text(cid),
{
    let mut r = "02:00:00:".to_owned();
    r.append(hex2_text(cid / 65536 % 256).as_str());
    r.append(":");
    r.append(hex2_text(cid / 256 % 256).as_str());
    r.append(":");
    r.append(hex2_text(cid % 256).as_str());
    r
}

// ---------------------------------------------------------------------
// Laws
// ---------------------------------------------------------------------

/// The identifier after `n` steps of the counter.
pub open spec fn cid_after(first: u32, n: nat) -> u32
    decreases n,
{
    if n == 0 {
        first
    } else {
        following(cid_after(first, (n - 1) as nat))
    }
}

proof fn lemma_cid_after(first: u32, n: nat)
    ensures
        cid_after(first, n) == (first + n) % 0x1_0000_0000,
    decreases n,
{
    if n > 0 {
        lemma_cid_after(first, (n - 1) as nat);
        vstd::arithmetic::div_mod::lemma_fundamental_div_mod(first + n, 0x1_0000_0000);
        vstd::arithmetic::div_mod::lemma_fundamental_div_mod(first + n - 1, 0x1_0000_0000);
    }
}

/// The counter gives out no identifier twice before it has given out all.
pub proof fn law_cids_distinct(first: u32, m: nat, n: nat)
    requires
        m < n,
        n - m < 0x1_0000_0000,
    ensures
        cid_after(first, m) != cid_after(first, n),
{
    lemma_cid_after(first, m);
    lemma_cid_after(first, n);
    vstd::arithmetic::div_mod::lemma_fundamental_div_mod(first + m, 0x1_0000_0000);
    vstd::arithmetic::div_mod::lemma_fundamental_div_mod(first + n, 0x1_0000_0000);
}

/// A VM that was added last is the first to leave, and then the pool is as
/// before, save that the VM is in use.
pub proof fn law_last_in_first_out(s: PoolState, template_id: Text, vm: (Text, Text, Text))
    ensures
        acquired(s.with_waiting(template_id, s.waiting(template_id).push(vm)), template_id).1 == Some(
            vm,
        ),
        acquired(
            s.with_waiting(template_id, s.waiting(template_id).push(vm)),
            template_id,
        ).0.waiting(template_id) == s.waiting(template_id),
        acquired(
            s.with_waiting(template_id, s.waiting(template_id).push(vm)),
            template_id,
        ).0.in_use == s.in_use.insert(vm.0, template_id),
{
    let q = s.waiting(template_id).push(vm);
    assert(q.drop_last() =~= s.waiting(template_id));
}

/// A VM never waits and is handed out at once: what is handed out leaves the
/// queue, and no queue of another template changes.
pub proof fn law_acquire_takes_one(s: PoolState, template_id: Text, other: Text)
    ensures
        acquired(s, template_id).1 is Some ==> acquired(s, template_id).0.waiting(template_id).len()
            == s.waiting(template_id).len() - 1,
        acquired(s, template_id).1 is None ==> acquired(s, template_id).0.waiting(template_id)
            == s.waiting(template_id),
        acquired(s, template_id).1 is None <==> s.waiting(template_id).len() == 0,
        other != template_id ==> acquired(s, template_id).0.waiting(other) == s.waiting(other),
{
}

/// A VM that is released after its use is back in the pool: it waits as it did
/// before it was acquired, is no longer in use, and is the next to be handed out
/// for its template.
pub proof fn law_release_undoes_acquire(s: PoolState, template_id: Text)
    requires
        s.bounded(),
        s.waiting(template_id).len() > 0,
        !s.in_use.dom().contains(s.waiting(template_id).last().0),
    ensures
        ({
            let vm = s.waiting(template_id).last();
            let back = released(acquired(s, template_id).0, vm);
            &&& back.1
            &&& back.0.in_use == s.in_use
            &&& forall|t: Text| #[trigger] back.0.waiting(t) == s.waiting(t)
            &&& acquired(back.0, template_id).1 == Some(vm)
        }),
{
    let q = s.waiting(template_id);
    let vm = q.last();
    assert(q.len() <= s.size);
    let back = released(acquired(s, template_id).0, vm);
    assert(q.drop_last().push(vm) =~= q);
    assert(back.0.in_use =~= s.in_use);
}

/// A VM that was in use and is released waits at the end of the queue of its
/// template, unless that queue is full, and no other queue changes.
pub proof fn law_released_vm_waits(s: PoolState, vm: (Text, Text, Text), other: Text)
    requires
        s.in_use.dom().contains(vm.0),
    ensures
        ({
            let t = s.in_use[vm.0];
            let after = released(s, vm);
            &&& !after.0.in_use.dom().contains(vm.0)
            &&& after.1 <==> s.waiting(t).len() < s.size
            &&& after.1 ==> after.0.waiting(t) == s.waiting(t).push(vm)
            &&& !after.1 ==> after.0.waiting(t) == s.waiting(t)
            &&& other != t ==> after.0.waiting(other) == s.waiting(other)
        }),
{
}

/// The worker that warms a VM only where one is wanted, and the release of a VM,
/// never let more VMs wait than are kept warm.
pub proof fn law_pool_stays_bounded(s: PoolState, template_id: Text, vm: (Text, Text, Text))
    requires
        s.bounded(),
    ensures
        released(s, vm).0.bounded(),
        s.waiting(template_id).len() < s.size ==> s.with_waiting(
            template_id,
            s.waiting(template_id).push(vm),
        ).bounded(),
        s.with_waiting(template_id, s.waiting(template_id)).bounded(),
        acquired(s, template_id).0.bounded(),
{
    let a = s.with_waiting(template_id, s.waiting(template_id).push(vm));
    let b = s.with_waiting(template_id, s.waiting(template_id));
    let c = acquired(s, template_id).0;
    let d = released(s, vm).0;
    assert forall|t: Text| #[trigger] d.waiting(t).len() <= d.size by {
        assert(s.waiting(t).len() <= s.size);
    }
    assert forall|t: Text| s.waiting(template_id).len() < s.size implies #[trigger] a.waiting(
        t,
    ).len() <= a.size by {
        assert(s.waiting(t).len() <= s.size);
    }
    assert forall|t: Text| #[trigger] b.waiting(t).len() <= b.size by {
        assert(s.waiting(t).len() <= s.size);
    }
    assert forall|t: Text| #[trigger] c.waiting(t).len() <= c.size by {
        assert(s.waiting(t).len() <= s.size);
    }
}

proof fn lemma_hex2_injective(a: int, b: int)
    requires
        0 <= a < 256,
        0 <= b < 256,
        hex2(a) == hex2(b),
    ensures
        a == b,
{
    assert(hex2(a)[0] == hex2(b)[0]);
    assert(hex2(a)[1] == hex2(b)[1]);
}

proof fn lemma_mac_parts(
    p: Text,
    c: Text,
    u2: Text,
    u1: Text,
    u0: Text,
    v2: Text,
    v1: Text,
    v0: Text,
)
    requires
        p.len() == 9,
        c.len() == 1,
        u2.len() == 2,
        u1.len() == 2,
        u0.len() == 2,
        v2.len() == 2,
        v1.len() == 2,
        v0.len() == 2,
        p + u2 + c + u1 + c + u0 == p + v2 + c + v1 + c + v0,
    ensures
        u2 == v2,
        u1 == v1,
        u0 == v0,
{
    let x = p + u2 + c + u1 + c + u0;
    let y = p + v2 + c + v1 + c + v0;
    assert(x.subrange(9, 11) =~= u2);
    assert(y.subrange(9, 11) =~= v2);
    assert(x.subrange(12, 14) =~= u1);
    assert(y.subrange(12, 14) =~= v1);
    assert(x.subrange(15, 17) =~= u0);
    assert(y.subrange(15, 17) =~= v0);
}

proof fn lemma_low_bytes(a: u32)
    ensures
        a % 0x100_0000 == (a / 65536 % 256) * 65536 + (a / 256 % 256) * 256 + a % 256,
{
}

/// Context identifiers that differ in their lower three bytes have different
/// hardware addresses.
pub proof fn law_macs_distinct(a: u32, b: u32)
    requires
        mac_text(a) == mac_text(b),
    ensures
        a % 0x100_0000 == b % 0x100_0000,
{
    let a2 = (a / 65536 % 256) as int;
    let a1 = (a / 256 % 256) as int;
    let a0 = (a % 256) as int;
    let b2 = (b / 65536 % 256) as int;
    let b1 = (b / 256 % 256) as int;
    let b0 = (b % 256) as int;
    assert("02:00:00:"@.len() == 9) by {
        reveal_strlit("02:00:00:");
    }
    assert(":"@.len() == 1) by {
        reveal_strlit(":");
    }
    lemma_mac_parts(
        "02:00:00:"@,
        ":"@,
        hex2(a2),
        hex2(a1),
        hex2(a0),
        hex2(b2),
        hex2(b1),
        hex2(b0),
    );
    lemma_hex2_injective(a2, b2);
    lemma_hex2_injective(a1, b1);
    lemma_hex2_injective(a0, b0);
    lemma_low_bytes(a);
    lemma_low_bytes(b);
}

proof fn lemma_prewarm(ids: Seq<Text>, n: nat)
    ensures
        prewarm_commands(ids, n).len() == ids.len() * n,
        forall|k: int, j: int|
            0 <= k < ids.len() && 0 <= j < n ==> 0 <= k * n + j < ids.len() * n
                && #[trigger] prewarm_commands(ids, n)[k * n + j] == (PoolCommandView::Warm {
                template_id: ids[k],
            }),
    decreases ids.len(),
{
    if ids.len() == 0 {
        assert(ids.len() * n == 0) by (nonlinear_arith)
            requires
                ids.len() == 0,
        ;
    } else {
        let head = ids.drop_last();
        let m = head.len() as int;
        lemma_prewarm(head, n);
        assert(ids.len() * n == m * n + n) by (nonlinear_arith)
            requires
                ids.len() == m + 1,
        ;
        assert forall|k: int, j: int| 0 <= k < ids.len() && 0 <= j < n implies 0 <= k * n + j
            < ids.len() * n && #[trigger] prewarm_commands(ids, n)[k * n + j] == (
        PoolCommandView::Warm { template_id: ids[k] }) by {
            assert(0 <= k * n) by (nonlinear_arith)
                requires
                    0 <= k,
                    0 <= n,
            ;
            if k < m {
                assert(k * n + j < m * n) by (nonlinear_arith)
                    requires
                        0 <= k < m,
                        0 <= j < n,
                ;
                assert(prewarm_commands(head, n)[k * n + j] == (PoolCommandView::Warm {
                    template_id: head[k],
                }));
            } else {
                assert(k * n == m * n) by (nonlinear_arith)
                    requires
                        k == m,
                ;
            }
        }
    }
}

/// At its start the pool asks for as many VMs of each template as are kept warm,
/// one template after the other, and for nothing else; later it asks for one of
/// each.
pub proof fn law_pool_is_warmed(
    p: &WarmPool,
    ids: &Vec<String>,
    first: Vec<PoolCommand>,
    later: Vec<PoolCommand>,
    k: int,
    j: int,
)
    requires
        call_ensures(WarmPool::prewarm, (p, ids), first),
        call_ensures(WarmPool::rebalance, (p, ids), later),
        0 <= k < ids@.len(),
        0 <= j < p@.size,
    ensures
        first@.len() == ids@.len() * p@.size,
        0 <= k * p@.size + j < first@.len(),
        first@[k * p@.size + j]@ == (PoolCommandView::Warm { template_id: ids@[k]@ }),
        later@.len() == ids@.len(),
        later@[k]@ == (PoolCommandView::Warm { template_id: ids@[k]@ }),
{
    let n = p@.size as nat;
    lemma_prewarm(strs(ids@), n);
    let v = pool_commands(first@);
    assert(v.len() == first@.len());
    assert(v[k * n + j] == (PoolCommandView::Warm { template_id: strs(ids@)[k] }));
    assert(v[k * n + j] == first@[k * n + j]@);
    let w = pool_commands(later@);
    assert(w.len() == later@.len());
    assert(w[k] == later@[k]@);
}

/// The hardware address of a guest is one that is given out locally, and spells
/// the lower three bytes of the context identifier, the highest first.
pub proof fn law_mac_spells_the_cid(cid: u32, r: String)
    requires
        call_ensures(guest_mac, (cid,), r),
    ensures
        r@.len() == 17,
        r@.take(9) == "02:00:00:"@,
        r@[11] == ':' && r@[14] == ':',
        parsed(r@.subrange(9, 11), 16, 255) == Some((cid / 65536 % 256) as nat),
        parsed(r@.subrange(12, 14), 16, 255) == Some((cid / 256 % 256) as nat),
        parsed(r@.subrange(15, 17), 16, 255) == Some((cid % 256) as nat),
{
    reveal_strlit("02:00:00:");
    reveal_strlit(":");
    let a = (cid / 65536 % 256) as int;
    let b = (cid / 256 % 256) as int;
    let c = (cid % 256) as int;
    assert(r@.take(9) =~= "02:00:00:"@);
    assert(r@.subrange(9, 11) =~= hex2(a));
    assert(r@.subrange(12, 14) =~= hex2(b));
    assert(r@.subrange(15, 17) =~= hex2(c));
    lemma_hex2_value(a);
    lemma_hex2_value(b);
    lemma_hex2_value(c);
}

/// The counter gives out one identifier after the other, from the first one that
/// is not reserved on.
pub proof fn law_cids_count_up(c: CidCounter, d: &mut CidCounter, first: u32, e: &mut CidCounter, second: u32)
    requires
        call_ensures(CidCounter::new, (), c),
        *old(d) == c,
        call_ensures(CidCounter::take, (d,), first),
        call_ensures(CidCounter::take, (e,), second),
    ensures
        first == 1024,
        second == old(e)@,
        old(e)@ < u32::MAX ==> final(e)@ == old(e)@ + 1,
        old(e)@ == u32::MAX ==> final(e)@ == 0,
{
}

/// A VM that is lent is in use until it is given back, and counted as such. One that
/// is given back waits for the next who asks for its template, unless enough wait.
pub proof fn law_lent_vm_comes_back(
    p: &mut WarmPool,
    template_id: &str,
    vm: PooledVm,
    vm_id: &str,
    lent: &WarmPool,
    n: usize,
    q: &mut WarmPool,
    r: Option<PooledVm>,
    m: usize,
    back: &WarmPool,
)
    requires
        vm_id@ == vm@.0,
        old(p)@.in_use.dom().finite(),
        !old(p)@.in_use.dom().contains(vm_id@),
        call_ensures(WarmPool::lend, (p, template_id, vm_id), ()),
        *lent == *final(p),
        call_ensures(WarmPool::in_use_count, (lent,), n),
        *old(q) == *final(p),
        call_ensures(WarmPool::release, (q, vm), r),
        *back == *final(q),
        call_ensures(WarmPool::in_use_count, (back,), m),
    ensures
        n == old(p)@.in_use.dom().len() + 1,
        m == old(p)@.in_use.dom().len(),
        final(q)@.in_use == old(p)@.in_use,
        r is None <==> old(p)@.waiting(template_id@).len() < old(p)@.size,
        r is None ==> final(q)@.waiting(template_id@) == old(p)@.waiting(template_id@).push(vm@),
        r matches Some(v) ==> v == vm && final(q)@.waiting(template_id@) == old(p)@.waiting(
            template_id@,
        ),
        forall|other: Text|
            other != template_id@ ==> #[trigger] final(q)@.waiting(other) == old(p)@.waiting(other),
{
    assert(final(p)@.in_use.dom() =~= old(p)@.in_use.dom().insert(vm_id@));
    assert(final(q)@.in_use =~= old(p)@.in_use);
}

/// The worker of the pool warms a VM exactly where too few wait, removes the socket
/// of a VM that it is told of, and lends and takes back nothing.
pub proof fn law_worker_does_as_told(
    p: &mut WarmPool,
    template_id: String,
    r: WorkerAction,
    q: &mut WarmPool,
    vm_id: String,
    vsock_path: String,
    s: WorkerAction,
)
    requires
        call_ensures(WarmPool::handle, (p, PoolCommand::Warm { template_id }), r),
        call_ensures(WarmPool::handle, (q, PoolCommand::Release { vm_id, vsock_path }), s),
    ensures
        r is Warm <==> old(p)@.waiting(template_id@).len() < old(p)@.size,
        r matches WorkerAction::Warm(t) ==> t@ == template_id@,
        !(r is RemoveFile),
        s matches WorkerAction::RemoveFile(path) && path@ == vsock_path@,
        final(p)@.in_use == old(p)@.in_use,
        final(q)@ == old(q)@,
        forall|t: Text| #[trigger] final(p)@.waiting(t) == old(p)@.waiting(t),
{
}

/// A VM that was warmed is the next that waits for its template, and for no other.
pub proof fn law_warmed_vm_waits(p: &mut WarmPool, template_id: &str, vm: PooledVm)
    requires
        call_ensures(WarmPool::add, (p, template_id, vm), ()),
    ensures
        final(p)@.waiting(template_id@) == old(p)@.waiting(template_id@).push(vm@),
        forall|other: Text|
            other != template_id@ ==> #[trigger] final(p)@.waiting(other) == old(p)@.waiting(other),
        final(p)@.in_use == old(p)@.in_use,
        final(p)@.size == old(p)@.size,
{
}

/// The counts of waiting VMs name each template once, with as many as wait for it.
pub proof fn law_waiting_are_counted(p: &WarmPool, r: Vec<(String, usize)>, i: int, j: int)
    requires
        call_ensures(WarmPool::available_counts, (p,), r),
        0 <= i < r@.len(),
        0 <= j < r@.len(),
    ensures
        r@[i].1 == p@.waiting(r@[i].0@).len(),
        r@[i].0@ == r@[j].0@ ==> i == j,
{
}

/// The counts of waiting VMs leave no template out for which one waits.
pub proof fn law_none_waits_unseen(p: &WarmPool, r: Vec<(String, usize)>, t: Text)
    requires
        call_ensures(WarmPool::available_counts, (p,), r),
        p@.waiting(t).len() > 0,
    ensures
        exists|k: int| 0 <= k < r@.len() && (#[trigger] r@[k]).0@ == t,
{
    assert(names_all(r@, p@.available.dom()));
    assert(p@.available.dom().contains(t));
}

} // verus!
