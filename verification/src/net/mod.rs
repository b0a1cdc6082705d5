//! Host-side network isolation: bridge, TAP devices, NAT and egress policy.

pub mod egress;
pub mod host;
pub mod link;
pub mod raw;
pub mod tap;

use dashmap::DashMap;
use vstd::prelude::*;
use vstd::utf8::encode_utf8;

use crate::error::{CofferError, ErrorView};
use crate::maps::{text_insert, text_map, text_pairs, text_remove, texts_in};
use crate::net::tap::{choose_name, chosen, cut, fits, law_chosen_name, other_names, NAME_BYTES};
use crate::platform::{debug_list, debug_list_text, lossy, lossy_text};
use crate::text::{cat2, cat3, cat5, contains_text, copy_texts, is_space, occurs, push_text, same_text, split_words,
    strs, trim_start, trim_text, trimmed, word_len, words_of, Text};

verus! {

broadcast use vstd::string::group_string_axioms;

// ---------------------------------------------------------------------
// Steps on interfaces
// ---------------------------------------------------------------------

/// The network of the sandboxes.
#[derive(Debug, Clone)]
pub struct NetworkConfig {
    pub bridge_name: String,
    pub subnet: String,
    pub tap_prefix: String,
}

/// A TAP device and the VM that it belongs to.
#[derive(Debug, Clone)]
pub struct TapDevice {
    pub name: String,
    pub vm_id: String,
}

/// A change of an interface.
#[derive(Debug)]
pub enum LinkStep {
    CreateBridge { bridge: String },
    AddAddress { link: String, cidr: String },
    CreateTap { tap: String },
    DeleteTap { tap: String },
    Up { link: String },
    Down { link: String },
    AddToBridge { tap: String, bridge: String },
    RemoveFromBridge { tap: String, bridge: String },
}

pub enum LinkStepView {
    CreateBridge { bridge: Text },
    AddAddress { link: Text, cidr: Text },
    CreateTap { tap: Text },
    DeleteTap { tap: Text },
    Up { link: Text },
    Down { link: Text },
    AddToBridge { tap: Text, bridge: Text },
    RemoveFromBridge { tap: Text, bridge: Text },
}

impl View for LinkStep {
    type V = LinkStepView;

    open spec fn view(&self) -> LinkStepView {
        match *self {
            LinkStep::CreateBridge { bridge } => LinkStepView::CreateBridge { bridge: bridge@ },
            LinkStep::AddAddress { link, cidr } => LinkStepView::AddAddress {
                link: link@,
                cidr: cidr@,
            },
            LinkStep::CreateTap { tap } => LinkStepView::CreateTap { tap: tap@ },
            LinkStep::DeleteTap { tap } => LinkStepView::DeleteTap { tap: tap@ },
            LinkStep::Up { link } => LinkStepView::Up { link: link@ },
            LinkStep::Down { link } => LinkStepView::Down { link: link@ },
            LinkStep::AddToBridge { tap, bridge } => LinkStepView::AddToBridge {
                tap: tap@,
                bridge: bridge@,
            },
            LinkStep::RemoveFromBridge { tap, bridge } => LinkStepView::RemoveFromBridge {
                tap: tap@,
                bridge: bridge@,
            },
        }
    }
}

/// The views of a sequence of steps.
pub open spec fn link_steps(v: Seq<LinkStep>) -> Seq<LinkStepView> {
    v.map_values(|s: LinkStep| s@)
}

// ---------------------------------------------------------------------
// Setting up the bridge
// ---------------------------------------------------------------------

/// Where the setup of the bridge stands.
#[derive(Debug, Clone, Copy, PartialEq, Eq, Structural)]
pub enum SetupPhase {
    Create,
    Up,
    Address,
    Forward,
    CheckNat,
    AddNat,
    Done,
}

/// What the setup of the bridge does in a phase.
#[derive(Debug)]
pub enum SetupAction {
    Link(LinkStep),
    /// Write this content to this file.
    WriteFile { path: &'static str, content: &'static str },
    /// Ask `iptables` whether a rule exists.
    Check(Vec<String>),
    /// Run `iptables`.
    Run(Vec<String>),
    Nothing,
}

pub enum SetupActionView {
    Link(LinkStepView),
    WriteFile { path: Text, content: Text },
    Check(Seq<Text>),
    Run(Seq<Text>),
    Nothing,
}

impl View for SetupAction {
    type V = SetupActionView;

    open spec fn view(&self) -> SetupActionView {
        match *self {
            SetupAction::Link(s) => SetupActionView::Link(s@),
            SetupAction::WriteFile { path, content } => SetupActionView::WriteFile {
                path: path@,
                content: content@,
            },
            SetupAction::Check(a) => SetupActionView::Check(strs(a@)),
            SetupAction::Run(a) => SetupActionView::Run(strs(a@)),
            SetupAction::Nothing => SetupActionView::Nothing,
        }
    }
}

/// How an action of the setup came out.
#[derive(Debug)]
pub enum SetupResult {
    Done,
    /// Whether the rule exists.
    Found(bool),
    Failed(CofferError),
}

/// The arguments with which `iptables` is asked whether a table has a rule.
pub open spec fn check_args(table: Text, rule: Text) -> Seq<Text> {
    seq!["-t"@, table, "-C"@] + words_of(rule)
}

/// The arguments with which `iptables` is asked whether a table has a rule.
pub fn iptables_has_rule(table: &str, rule: &str) -> (r: Vec<String>)
    ensures
        strs(r@) == check_args(table@, rule@),
{
    let mut args: Vec<String> = Vec::new();
    push_text(&mut args, "-t");
    push_text(&mut args, table);
    push_text(&mut args, "-C");
    let mut words = split_words(rule);
    let ghost before = args@;
    let ghost more = words@;
    args.append(&mut words);
    assert(strs(args@) =~= strs(before) + strs(more));
    assert(strs(args@) =~= check_args(table@, rule@));
    args
}

/// The rule that lets the guests reach the outside under the host's address.
pub open spec fn nat_rule(subnet: Text, bridge: Text) -> Text {
    "POSTROUTING -s "@ + subnet + " ! -o "@ + bridge + " -j MASQUERADE"@
}

/// The arguments that append this rule.
pub open spec fn nat_args(subnet: Text, bridge: Text) -> Seq<Text> {
    seq![
        "-t"@,
        "nat"@,
        "-A"@,
        "POSTROUTING"@,
        "-s"@,
        subnet,
        "!"@,
        "-o"@,
        bridge,
        "-j"@,
        "MASQUERADE"@,
    ]
}

/// What the setup of the bridge does in a phase.
pub open spec fn setup_does(subnet: Text, bridge: Text, phase: SetupPhase) -> SetupActionView {
    match phase {
        SetupPhase::Create => SetupActionView::Link(LinkStepView::CreateBridge { bridge }),
        SetupPhase::Up => SetupActionView::Link(LinkStepView::Up { link: bridge }),
        SetupPhase::Address => SetupActionView::Link(
            LinkStepView::AddAddress { link: bridge, cidr: subnet },
        ),
        SetupPhase::Forward => SetupActionView::WriteFile {
            path: "/proc/sys/net/ipv4/ip_forward"@,
            content: "1\n"@,
        },
        SetupPhase::CheckNat => SetupActionView::Check(
            check_args("nat"@, nat_rule(subnet, bridge)),
        ),
        SetupPhase::AddNat => SetupActionView::Run(nat_args(subnet, bridge)),
        SetupPhase::Done => SetupActionView::Nothing,
    }
}

/// Whether an error only says that the bridge exists.
pub open spec fn says_exists(e: ErrorView) -> bool {
    e matches ErrorView::Network(msg) && occurs(msg, "File exists"@)
}

/// The phase that follows. Of the link steps each must succeed, save that the
/// bridge may exist; the rest is done as far as it can be, and the NAT rule is
/// added unless it is known to exist.
pub open spec fn setup_after(phase: SetupPhase, result: SetupResult) -> Result<
    SetupPhase,
    ErrorView,
> {
    match phase {
        SetupPhase::Create => match result {
            SetupResult::Failed(e) => if says_exists(e@) {
                Ok(SetupPhase::Up)
            } else {
                Err(e@)
            },
            _ => Ok(SetupPhase::Up),
        },
        SetupPhase::Up => match result {
            SetupResult::Failed(e) => Err(e@),
            _ => Ok(SetupPhase::Address),
        },
        SetupPhase::Address => match result {
            SetupResult::Failed(e) => Err(e@),
            _ => Ok(SetupPhase::Forward),
        },
        SetupPhase::Forward => Ok(SetupPhase::CheckNat),
        SetupPhase::CheckNat => match result {
            SetupResult::Found(true) => Ok(SetupPhase::Done),
            _ => Ok(SetupPhase::AddNat),
        },
        SetupPhase::AddNat => Ok(SetupPhase::Done),
        SetupPhase::Done => Ok(SetupPhase::Done),
    }
}

/// The phase that follows, given how the action of a phase came out.
pub fn setup_next(phase: SetupPhase, result: SetupResult) -> (r: Result<SetupPhase, CofferError>)
    ensures
        match r {
            Ok(p) => setup_after(phase, result) == Ok::<SetupPhase, ErrorView>(p),
            Err(e) => setup_after(phase, result) == Err::<SetupPhase, ErrorView>(e@),
        },
{
    match phase {
        SetupPhase::Create => match result {
            SetupResult::Failed(e) => {
                let exists = match &e {
                    CofferError::Network(msg) => contains_text(msg.as_str(), "File exists"),
                    _ => false,
                };
                if exists {
                    Ok(SetupPhase::Up)
                } else {
                    Err(e)
                }
            },
            _ => Ok(SetupPhase::Up),
        },
        SetupPhase::Up => match result {
            SetupResult::Failed(e) => Err(e),
            _ => Ok(SetupPhase::Address),
        },
        SetupPhase::Address => match result {
            SetupResult::Failed(e) => Err(e),
            _ => Ok(SetupPhase::Forward),
        },
        SetupPhase::Forward => Ok(SetupPhase::CheckNat),
        SetupPhase::CheckNat => match result {
            SetupResult::Found(true) => Ok(SetupPhase::Done),
            _ => Ok(SetupPhase::AddNat),
        },
        SetupPhase::AddNat => Ok(SetupPhase::Done),
        SetupPhase::Done => Ok(SetupPhase::Done),
    }
}

// ---------------------------------------------------------------------
// The network manager
// ---------------------------------------------------------------------

/// The state of the network manager.
pub struct NetworkState {
    pub bridge_name: Text,
    pub subnet: Text,
    pub tap_prefix: Text,
    /// Of each VM with a TAP device, the name of the device.
    pub taps: Map<Text, Text>,
    /// Whether the bridge was set up, or is being set up.
    pub bridge_setup: bool,
}

/// The network of the host, as far as it was set up for sandboxes.
pub struct NetworkManager {
    config: NetworkConfig,
    allocated_taps: DashMap<String, String>,
    bridge_setup: bool,
}

impl View for NetworkManager {
    type V = NetworkState;

    closed spec fn view(&self) -> NetworkState {
        NetworkState {
            bridge_name: self.config.bridge_name@,
            subnet: self.config.subnet@,
            tap_prefix: self.config.tap_prefix@,
            taps: texts_in(self.allocated_taps),
            bridge_setup: self.bridge_setup,
        }
    }
}

/// What has to be done to give a VM its TAP device.
#[derive(Debug)]
pub struct TapPlan {
    pub name: String,
    pub steps: Vec<LinkStep>,
}

/// The steps that make a TAP device and put it on the bridge.
pub open spec fn attach_steps(tap: Text, bridge: Text) -> Seq<LinkStepView> {
    seq![
        LinkStepView::CreateTap { tap },
        LinkStepView::Up { link: tap },
        LinkStepView::AddToBridge { tap, bridge },
    ]
}

/// The steps that take a TAP device off the bridge and remove it.
pub open spec fn detach_steps(tap: Text, bridge: Text) -> Seq<LinkStepView> {
    seq![
        LinkStepView::RemoveFromBridge { tap, bridge },
        LinkStepView::Down { link: tap },
        LinkStepView::DeleteTap { tap },
    ]
}

impl NetworkManager {
    pub fn new(config: NetworkConfig) -> (r: NetworkManager)
        ensures
            r@ == (NetworkState {
                bridge_name: config.bridge_name@,
                subnet: config.subnet@,
                tap_prefix: config.tap_prefix@,
                taps: Map::empty(),
                bridge_setup: false,
            }),
    {
        let taps = text_map();
        assert(texts_in(taps) =~= Map::<Text, Text>::empty());
        NetworkManager { config, allocated_taps: taps, bridge_setup: false }
    }

    /// Whether the bridge still has to be set up. The caller that is told so
    /// does it; from then on nobody else is.
    pub fn setup_bridge(&mut self) -> (r: bool)
        ensures
            r == !old(self)@.bridge_setup,
            final(self)@ == (NetworkState { bridge_setup: true, ..old(self)@ }),
    {
        let needed = !self.bridge_setup;
        self.bridge_setup = true;
        needed
    }

    /// Takes the outcome of the setup; after a failure the next caller tries
    /// again.
    pub fn end_setup(&mut self, outcome: Result<(), CofferError>) -> (r: Result<(), CofferError>)
        ensures
            r == outcome,
            outcome is Ok ==> final(self)@ == old(self)@,
            outcome is Err ==> final(self)@ == (NetworkState { bridge_setup: false, ..old(self)@ }),
    {
        if outcome.is_err() {
            self.bridge_setup = false;
        }
        outcome
    }

    /// What the setup of the bridge does in a phase.
    pub fn setup_action(&self, phase: SetupPhase) -> (r: SetupAction)
        ensures
            r@ == setup_does(self@.subnet, self@.bridge_name, phase),
    {
        let bridge = &self.config.bridge_name;
        let subnet = &self.config.subnet;
        match phase {
            SetupPhase::Create => SetupAction::Link(
                LinkStep::CreateBridge { bridge: bridge.clone() },
            ),
            SetupPhase::Up => SetupAction::Link(LinkStep::Up { link: bridge.clone() }),
            SetupPhase::Address => SetupAction::Link(
                LinkStep::AddAddress { link: bridge.clone(), cidr: subnet.clone() },
            ),
            SetupPhase::Forward => SetupAction::WriteFile {
                path: "/proc/sys/net/ipv4/ip_forward",
                content: "1\n",
            },
            SetupPhase::CheckNat => {
                let rule = cat5(
                    "POSTROUTING -s ",
                    subnet.as_str(),
                    " ! -o ",
                    bridge.as_str(),
                    " -j MASQUERADE",
                );
                SetupAction::Check(iptables_has_rule("nat", rule.as_str()))
            },
            SetupPhase::AddNat => {
                let mut a: Vec<String> = Vec::new();
                push_text(&mut a, "-t");
                push_text(&mut a, "nat");
                push_text(&mut a, "-A");
                push_text(&mut a, "POSTROUTING");
                push_text(&mut a, "-s");
                push_text(&mut a, subnet.as_str());
                push_text(&mut a, "!");
                push_text(&mut a, "-o");
                push_text(&mut a, bridge.as_str());
                push_text(&mut a, "-j");
                push_text(&mut a, "MASQUERADE");
                assert(strs(a@) =~= nat_args(subnet@, bridge@));
                SetupAction::Run(a)
            },
            SetupPhase::Done => SetupAction::Nothing,
        }
    }

    /// The names of the devices of the other VMs.
    fn names_of_others(&self, vm_id: &str) -> (r: Vec<String>)
        ensures
            strs(r@).to_set() == other_names(self@.taps, vm_id@),
    {
        let all = text_pairs(&self.allocated_taps);
        let ghost taps = self@.taps;
        let ghost others = taps.remove(vm_id@);
        let mut out: Vec<String> = Vec::new();
        let mut i: usize = 0;
        while i < all.len()
            invariant
                i <= all@.len(),
                others == taps.remove(vm_id@),
                forall|j: int|
                    0 <= j < all@.len() ==> taps.dom().contains((#[trigger] all@[j]).0@)
                        && all@[j].1@ == taps[all@[j].0@],
                forall|j: int|
                    0 <= j < out@.len() ==> others.values().contains((#[trigger] out@[j])@),
                forall|j: int|
                    0 <= j < i && (#[trigger] all@[j]).0@ != vm_id@ ==> strs(out@).contains(
                        all@[j].1@,
                    ),
            decreases all@.len() - i,
        {
            let ghost before = out@;
            if !same_text(all[i].0.as_str(), vm_id) {
                assert(others.dom().contains(all@[i as int].0@));
                assert(others.values().contains(others[all@[i as int].0@]));
                out.push(all[i].1.clone());
                assert(strs(out@) =~= strs(before).push(all@[i as int].1@));
                assert(strs(out@)[before.len() as int] == all@[i as int].1@);
                assert forall|t: Text| strs(before).contains(t) implies strs(out@).contains(t) by {
                    let k = choose|k: int| 0 <= k < strs(before).len() && strs(before)[k] == t;
                    assert(strs(out@)[k] == t);
                }
            }
            i = i + 1;
        }
        proof {
            assert forall|t: Text|
                #[trigger] strs(out@).to_set().contains(t) <==> others.values().contains(t) by {
                if strs(out@).to_set().contains(t) {
                    let k = choose|k: int| 0 <= k < strs(out@).len() && strs(out@)[k] == t;
                    assert(out@[k]@ == t);
                }
                if others.values().contains(t) {
                    let id = choose|id: Text| others.dom().contains(id) && others[id] == t;
                    let k = choose|k: int| 0 <= k < all@.len() && (#[trigger] all@[k]).0@ == id;
                    assert(all@[k].1@ == t);
                }
            }
            assert(strs(out@).to_set() =~= others.values());
        }
        out
    }

    /// The name that the TAP device of a VM gets, if there is one left: it begins
    /// with the prefix, and no device of another VM has it.
    pub fn tap_name(&self, vm_id: &str) -> (r: Option<String>)
        ensures
            match r {
                Some(name) => chosen(
                    other_names(self@.taps, vm_id@),
                    self@.tap_prefix,
                    vm_id@,
                ) == Some(name@),
                None => chosen(other_names(self@.taps, vm_id@), self@.tap_prefix, vm_id@) is None,
            },
            r matches Some(name) ==> {
                &&& !other_names(self@.taps, vm_id@).contains(name@)
                &&& encode_utf8(name@).len() <= NAME_BYTES
                &&& cut(self@.tap_prefix).is_prefix_of(name@)
                &&& fits(self@.tap_prefix) ==> self@.tap_prefix.is_prefix_of(name@)
            },
    {
        let taken = self.names_of_others(vm_id);
        proof {
            law_chosen_name(other_names(self@.taps, vm_id@), self@.tap_prefix, vm_id@);
        }
        choose_name(&taken, self.config.tap_prefix.as_str(), vm_id)
    }

    /// What has to be done to give a VM its TAP device. Each step must succeed;
    /// then the device is recorded. It fails where no name is left.
    pub fn allocate_tap(&self, vm_id: &str) -> (r: Result<TapPlan, CofferError>)
        ensures
            match r {
                Ok(plan) => {
                    &&& chosen(other_names(self@.taps, vm_id@), self@.tap_prefix, vm_id@) == Some(
                        plan.name@,
                    )
                    &&& !other_names(self@.taps, vm_id@).contains(plan.name@)
                    &&& encode_utf8(plan.name@).len() <= NAME_BYTES
                    &&& cut(self@.tap_prefix).is_prefix_of(plan.name@)
                    &&& fits(self@.tap_prefix) ==> self@.tap_prefix.is_prefix_of(plan.name@)
                    &&& link_steps(plan.steps@) == attach_steps(plan.name@, self@.bridge_name)
                },
                Err(e) => {
                    &&& chosen(other_names(self@.taps, vm_id@), self@.tap_prefix, vm_id@) is None
                    &&& e@ == ErrorView::Network("No TAP name left for "@ + vm_id@)
                },
            },
    {
        let name = match self.tap_name(vm_id) {
            Some(name) => name,
            None => {
                return Err(CofferError::Network(cat2("No TAP name left for ", vm_id)));
            },
        };
        let mut steps: Vec<LinkStep> = Vec::new();
        steps.push(LinkStep::CreateTap { tap: name.clone() });
        steps.push(LinkStep::Up { link: name.clone() });
        steps.push(
            LinkStep::AddToBridge { tap: name.clone(), bridge: self.config.bridge_name.clone() },
        );
        assert(link_steps(steps@) =~= attach_steps(name@, self@.bridge_name));
        Ok(TapPlan { name, steps })
    }

    /// Records the TAP device of a VM.
    pub fn record_tap(&mut self, device: TapDevice)
        ensures
            final(self)@ == (NetworkState {
                taps: old(self)@.taps.insert(device.vm_id@, device.name@),
                ..old(self)@
            }),
    {
        text_insert(&mut self.allocated_taps, device.vm_id, device.name);
    }

    /// Forgets the TAP device of a VM and says what has to be done to remove it;
    /// a step that fails is passed over. A VM without a device needs nothing.
    pub fn deallocate_tap(&mut self, vm_id: &str) -> (r: Vec<LinkStep>)
        ensures
            final(self)@ == (NetworkState { taps: old(self)@.taps.remove(vm_id@), ..old(self)@ }),
            link_steps(r@) == if old(self)@.taps.dom().contains(vm_id@) {
                detach_steps(old(self)@.taps[vm_id@], old(self)@.bridge_name)
            } else {
                seq![]
            },
    {
        let mut steps: Vec<LinkStep> = Vec::new();
        match text_remove(&mut self.allocated_taps, vm_id) {
            Some(tap) => {
                let bridge = &self.config.bridge_name;
                steps.push(
                    LinkStep::RemoveFromBridge { tap: tap.clone(), bridge: bridge.clone() },
                );
                steps.push(LinkStep::Down { link: tap.clone() });
                steps.push(LinkStep::DeleteTap { tap });
                assert(link_steps(steps@) =~= detach_steps(tap@, bridge@));
            },
            None => {
                assert(link_steps(steps@) =~= Seq::<LinkStepView>::empty());
            },
        }
        steps
    }
}

// ---------------------------------------------------------------------
// Egress policy
// ---------------------------------------------------------------------

/// What `iptables` has to be told to apply an egress policy.
#[derive(Debug)]
pub struct EgressPlan {
    /// Commands that make the chain and empty it; they may fail.
    pub prepare: Vec<Vec<String>>,
    /// Asks whether the jump to the chain exists.
    pub check: Vec<String>,
    /// Adds the jump, where it does not exist.
    pub jump: Vec<String>,
    /// Commands that fill the chain, in order.
    pub fill: Vec<Vec<String>>,
}

/// The views of a sequence of commands.
pub open spec fn commands(v: Seq<Vec<String>>) -> Seq<Seq<Text>> {
    v.map_values(|a: Vec<String>| strs(a@))
}

/// The chain of a TAP device.
pub open spec fn chain_of(tap: Text) -> Text {
    "COFFER-"@ + tap
}

/// The jump from what a device sends to its chain.
pub open spec fn jump_rule(tap: Text) -> Text {
    "FORWARD -i "@ + tap + " -j "@ + chain_of(tap)
}

/// A rule of a chain.
pub enum Rule {
    /// Accept what belongs to a connection that stands.
    Established,
    /// Accept what goes to an address.
    Accept(Text),
    /// Drop what goes to an address.
    Drop(Text),
    /// Drop everything.
    DropAll,
}

/// A change of a chain.
pub enum ChainEdit {
    Append(Rule),
    Prepend(Rule),
}

/// The words of a rule.
pub open spec fn rule_words(rule: Rule) -> Seq<Text> {
    match rule {
        Rule::Established => seq![
            "-m"@,
            "state"@,
            "--state"@,
            "ESTABLISHED,RELATED"@,
            "-j"@,
            "ACCEPT"@,
        ],
        Rule::Accept(addr) => seq!["-d"@, addr, "-j"@, "ACCEPT"@],
        Rule::Drop(addr) => seq!["-d"@, addr, "-j"@, "DROP"@],
        Rule::DropAll => seq!["-j"@, "DROP"@],
    }
}

/// The command for a change of a chain.
pub open spec fn edit_command(chain: Text, e: ChainEdit) -> Seq<Text> {
    match e {
        ChainEdit::Append(rule) => seq!["-A"@, chain] + rule_words(rule),
        ChainEdit::Prepend(rule) => seq!["-I"@, chain, "1"@] + rule_words(rule),
    }
}

/// The commands for some changes of a chain.
pub open spec fn edit_commands(chain: Text, edits: Seq<ChainEdit>) -> Seq<Seq<Text>> {
    edits.map_values(|e: ChainEdit| edit_command(chain, e))
}

/// The changes that fill the chain of a policy.
pub open spec fn policy_edits(allow: Seq<Text>, deny: Seq<Text>) -> Seq<ChainEdit> {
    seq![ChainEdit::Append(Rule::DropAll)] + allow.map_values(
        |a: Text| ChainEdit::Prepend(Rule::Accept(a)),
    ) + deny.map_values(|a: Text| ChainEdit::Prepend(Rule::Drop(a))) + seq![
        ChainEdit::Prepend(Rule::Established),
    ]
}

fn destination_rule(chain: &str, addr: &str, target: &str) -> (r: Vec<String>)
    ensures
        strs(r@) == seq!["-I"@, chain@, "1"@] + seq!["-d"@, addr@, "-j"@, target@],
{
    let mut a: Vec<String> = Vec::new();
    push_text(&mut a, "-I");
    push_text(&mut a, chain);
    push_text(&mut a, "1");
    push_text(&mut a, "-d");
    push_text(&mut a, addr);
    push_text(&mut a, "-j");
    push_text(&mut a, target);
    assert(strs(a@) =~= seq!["-I"@, chain@, "1"@] + seq!["-d"@, addr@, "-j"@, target@]);
    a
}

/// Appends to `out` one command for each address.
fn push_destinations(out: &mut Vec<Vec<String>>, chain: &str, list: &Vec<String>, target: &str)
    ensures
        commands(final(out)@) == commands(old(out)@) + strs(list@).map_values(
            |addr: Text| seq!["-I"@, chain@, "1"@] + seq!["-d"@, addr, "-j"@, target@],
        ),
{
    let ghost all = strs(list@).map_values(
        |addr: Text| seq!["-I"@, chain@, "1"@] + seq!["-d"@, addr, "-j"@, target@],
    );
    let mut i: usize = 0;
    assert(commands(out@) =~= commands(old(out)@) + all.take(0));
    while i < list.len()
        invariant
            i <= list@.len(),
            all == strs(list@).map_values(
                |addr: Text| seq!["-I"@, chain@, "1"@] + seq!["-d"@, addr, "-j"@, target@],
            ),
            commands(out@) == commands(old(out)@) + all.take(i as int),
        decreases list@.len() - i,
    {
        let ghost before = out@;
        let c = destination_rule(chain, list[i].as_str(), target);
        out.push(c);
        proof {
            assert(commands(out@) =~= commands(before).push(strs(c@)));
            assert(all[i as int] == strs(c@));
            assert(all.take(i + 1) =~= all.take(i as int).push(all[i as int]));
            assert(commands(out@) =~= commands(old(out)@) + all.take(i + 1));
        }
        i = i + 1;
    }
    assert(all.take(i as int) =~= all);
}

impl NetworkManager {
    /// What has to be told to `iptables` so that what comes from the device `tap_name`
    /// may go to the allowed addresses, save the denied ones, and nowhere else.
    pub fn apply_egress_policy(
        &self,
        tap_name: &str,
        allowlist: &Vec<String>,
        denylist: &Vec<String>,
    ) -> (r: EgressPlan)
        ensures
            r.is_for(tap_name@, strs(allowlist@), strs(denylist@)),
    {
        let chain = cat2("COFFER-", tap_name);
        let c = chain.as_str();

        let mut make: Vec<String> = Vec::new();
        push_text(&mut make, "-N");
        push_text(&mut make, c);
        let mut flush: Vec<String> = Vec::new();
        push_text(&mut flush, "-F");
        push_text(&mut flush, c);
        assert(strs(make@) =~= seq!["-N"@, c@]);
        assert(strs(flush@) =~= seq!["-F"@, c@]);
        let mut prepare: Vec<Vec<String>> = Vec::new();
        prepare.push(make);
        prepare.push(flush);
        assert(commands(prepare@) =~= filter_words(policy_prepare(tap_name@)));

        let mut rule = cat3("FORWARD -i ", tap_name, " -j ");
        rule.append(c);
        let check = iptables_has_rule("filter", rule.as_str());

        let mut jump: Vec<String> = Vec::new();
        push_text(&mut jump, "-A");
        push_text(&mut jump, "FORWARD");
        push_text(&mut jump, "-i");
        push_text(&mut jump, tap_name);
        push_text(&mut jump, "-j");
        push_text(&mut jump, c);
        assert(strs(jump@) =~= seq!["-A"@, "FORWARD"@, "-i"@, tap_name@, "-j"@, c@]);

        let mut fill: Vec<Vec<String>> = Vec::new();
        let mut drop_all: Vec<String> = Vec::new();
        push_text(&mut drop_all, "-A");
        push_text(&mut drop_all, c);
        push_text(&mut drop_all, "-j");
        push_text(&mut drop_all, "DROP");
        assert(strs(drop_all@) =~= edit_command(c@, ChainEdit::Append(Rule::DropAll)));
        fill.push(drop_all);
        assert(commands(fill@) =~= seq![edit_command(c@, ChainEdit::Append(Rule::DropAll))]);
        push_destinations(&mut fill, c, allowlist, "ACCEPT");
        push_destinations(&mut fill, c, denylist, "DROP");
        let mut established: Vec<String> = Vec::new();
        push_text(&mut established, "-I");
        push_text(&mut established, c);
        push_text(&mut established, "1");
        push_text(&mut established, "-m");
        push_text(&mut established, "state");
        push_text(&mut established, "--state");
        push_text(&mut established, "ESTABLISHED,RELATED");
        push_text(&mut established, "-j");
        push_text(&mut established, "ACCEPT");
        assert(strs(established@) =~= edit_command(c@, ChainEdit::Prepend(Rule::Established)));
        let ghost before = fill@;
        fill.push(established);
        proof {
            assert(commands(fill@) =~= commands(before).push(strs(established@)));
            assert(commands(fill@) =~= edit_commands(
                c@,
                policy_edits(strs(allowlist@), strs(denylist@)),
            ));
        }
        EgressPlan { prepare, check, jump, fill }
    }
}

impl EgressPlan {
    /// Whether this is the plan for a policy on a device.
    pub open spec fn is_for(&self, tap: Text, allow: Seq<Text>, deny: Seq<Text>) -> bool {
        &&& commands(self.prepare@) == filter_words(policy_prepare(tap))
        &&& strs(self.check@) == check_args("filter"@, jump_rule(tap))
        &&& strs(self.jump@) == filter_command(FilterCommand::Jump(tap))
        &&& commands(self.fill@) == edit_commands(chain_of(tap), policy_edits(allow, deny))
    }

    /// What is left to be run once the check was answered, each of which must
    /// succeed: the jump, where it does not exist, then what fills the chain. A
    /// check that failed ends the work.
    pub fn after_check(self, found: Result<bool, CofferError>) -> (r: Result<
        Vec<Vec<String>>,
        CofferError,
    >)
        ensures
            match found {
                Ok(true) => r matches Ok(rest) && rest@ == self.fill@,
                Ok(false) => r matches Ok(rest) && rest@ == seq![self.jump] + self.fill@,
                Err(e) => r == Err::<Vec<Vec<String>>, CofferError>(e),
            },
            forall|tap: Text, allow: Seq<Text>, deny: Seq<Text>|
                #[trigger] self.is_for(tap, allow, deny) && found is Ok ==> r is Ok && commands(
                    r->Ok_0@,
                ) == filter_words(policy_rest(tap, allow, deny, found->Ok_0)),
    {
        let found = match found {
            Ok(found) => found,
            Err(e) => {
                return Err(e);
            },
        };
        let ghost plan = self;
        let mut rest: Vec<Vec<String>> = Vec::new();
        if !found {
            rest.push(self.jump);
        }
        let mut fill = self.fill;
        rest.append(&mut fill);
        proof {
            assert(rest@ =~= if found { plan.fill@ } else { seq![plan.jump] + plan.fill@ });
            assert forall|tap: Text, allow: Seq<Text>, deny: Seq<Text>|
                #[trigger] plan.is_for(tap, allow, deny) implies commands(rest@) == filter_words(
                policy_rest(tap, allow, deny, found),
            ) by {
                let chain = chain_of(tap);
                let edits = policy_edits(allow, deny);
                let fills = edits.map_values(|e: ChainEdit| FilterCommand::Edit(chain, e));
                assert(filter_words(fills) =~= edit_commands(chain, edits));
                if found {
                    assert(commands(rest@) =~= filter_words(fills));
                } else {
                    assert(commands(rest@) =~= seq![strs(plan.jump@)] + commands(plan.fill@));
                    assert(filter_words(seq![FilterCommand::Jump(tap)] + fills) =~= seq![
                        strs(plan.jump@),
                    ] + filter_words(fills));
                }
            }
        }
        Ok(rest)
    }
}

// ---------------------------------------------------------------------
// What the commands do
// ---------------------------------------------------------------------

/// A command to `iptables`.
pub enum FilterCommand {
    /// Make a chain.
    New(Text),
    /// Empty a chain.
    Flush(Text),
    /// Send what comes from a device through its chain.
    Jump(Text),
    /// Change a chain.
    Edit(Text, ChainEdit),
}

/// The words of a command.
pub open spec fn filter_command(c: FilterCommand) -> Seq<Text> {
    match c {
        FilterCommand::New(chain) => seq!["-N"@, chain],
        FilterCommand::Flush(chain) => seq!["-F"@, chain],
        FilterCommand::Jump(tap) => seq!["-A"@, "FORWARD"@, "-i"@, tap, "-j"@, chain_of(tap)],
        FilterCommand::Edit(chain, e) => edit_command(chain, e),
    }
}

/// The words of some commands.
pub open spec fn filter_words(cs: Seq<FilterCommand>) -> Seq<Seq<Text>> {
    cs.map_values(|c: FilterCommand| filter_command(c))
}

/// The filter table, as far as egress policies touch it.
#[verifier::ext_equal]
pub struct Filter {
    /// The devices with a jump to their chain, once for each jump.
    pub jumps: Seq<Text>,
    pub chains: Map<Text, Seq<Rule>>,
}

/// The table after a command: a chain that exists is not made again, and one that
/// does not exist cannot be changed.
pub open spec fn ran(f: Filter, c: FilterCommand) -> Filter {
    match c {
        FilterCommand::New(chain) => if f.chains.dom().contains(chain) {
            f
        } else {
            Filter { chains: f.chains.insert(chain, seq![]), ..f }
        },
        FilterCommand::Flush(chain) => if f.chains.dom().contains(chain) {
            Filter { chains: f.chains.insert(chain, seq![]), ..f }
        } else {
            f
        },
        FilterCommand::Jump(tap) => Filter { jumps: f.jumps.push(tap), ..f },
        FilterCommand::Edit(chain, e) => if f.chains.dom().contains(chain) {
            Filter { chains: f.chains.insert(chain, edited(f.chains[chain], e)), ..f }
        } else {
            f
        },
    }
}

/// The table after some commands, in order.
pub open spec fn ran_all(f: Filter, cs: Seq<FilterCommand>) -> Filter
    decreases cs.len(),
{
    if cs.len() == 0 {
        f
    } else {
        ran(ran_all(f, cs.drop_last()), cs.last())
    }
}

/// The commands that make the chain of a device and empty it.
pub open spec fn policy_prepare(tap: Text) -> Seq<FilterCommand> {
    seq![FilterCommand::New(chain_of(tap)), FilterCommand::Flush(chain_of(tap))]
}

/// The commands that follow, given whether the jump exists.
pub open spec fn policy_rest(
    tap: Text,
    allow: Seq<Text>,
    deny: Seq<Text>,
    found: bool,
) -> Seq<FilterCommand> {
    let fills = policy_edits(allow, deny).map_values(
        |e: ChainEdit| FilterCommand::Edit(chain_of(tap), e),
    );
    if found {
        fills
    } else {
        seq![FilterCommand::Jump(tap)] + fills
    }
}

/// The table after a policy was applied to a device, every command having
/// succeeded: the chain is prepared, the jump looked for, and the rest run.
pub open spec fn policy_applied(f: Filter, tap: Text, allow: Seq<Text>, deny: Seq<Text>) -> Filter {
    let g = ran_all(f, policy_prepare(tap));
    ran_all(g, policy_rest(tap, allow, deny, g.jumps.contains(tap)))
}

/// A chain after a change.
pub open spec fn edited(rules: Seq<Rule>, e: ChainEdit) -> Seq<Rule> {
    match e {
        ChainEdit::Append(rule) => rules.push(rule),
        ChainEdit::Prepend(rule) => seq![rule] + rules,
    }
}

/// A chain after some changes, in order.
pub open spec fn edited_all(rules: Seq<Rule>, edits: Seq<ChainEdit>) -> Seq<Rule>
    decreases edits.len(),
{
    if edits.len() == 0 {
        rules
    } else {
        edited(edited_all(rules, edits.drop_last()), edits.last())
    }
}

/// Whether a rule speaks of a packet, given which addresses the packet matches
/// and whether it belongs to a connection that stands.
pub open spec fn speaks_of(rule: Rule, matches: spec_fn(Text) -> bool, established: bool) -> bool {
    match rule {
        Rule::Established => established,
        Rule::Accept(addr) => matches(addr),
        Rule::Drop(addr) => matches(addr),
        Rule::DropAll => true,
    }
}

/// Whether a chain lets a packet pass: the first rule that speaks of it decides.
pub open spec fn passes(
    rules: Seq<Rule>,
    matches: spec_fn(Text) -> bool,
    established: bool,
) -> bool
    decreases rules.len(),
{
    if rules.len() == 0 {
        true
    } else if speaks_of(rules[0], matches, established) {
        rules[0] is Established || rules[0] is Accept
    } else {
        passes(rules.drop_first(), matches, established)
    }
}

/// Whether a packet matches an address of a list.
pub open spec fn matches_any(list: Seq<Text>, matches: spec_fn(Text) -> bool) -> bool {
    exists|i: int| 0 <= i < list.len() && matches(#[trigger] list[i])
}

proof fn lemma_prepends(rules: Seq<Rule>, list: Seq<Text>, f: spec_fn(Text) -> Rule)
    ensures
        edited_all(rules, list.map_values(|a: Text| ChainEdit::Prepend(f(a)))) == list.map_values(
            f,
        ).reverse() + rules,
    decreases list.len(),
{
    let edits = list.map_values(|a: Text| ChainEdit::Prepend(f(a)));
    if list.len() == 0 {
        assert(list.map_values(f).reverse() + rules =~= rules);
    } else {
        let head = list.drop_last();
        lemma_prepends(rules, head, f);
        assert(edits.drop_last() =~= head.map_values(|a: Text| ChainEdit::Prepend(f(a))));
        assert(edits.last() == ChainEdit::Prepend(f(list.last())));
        assert(seq![f(list.last())] + (head.map_values(f).reverse() + rules) =~= list.map_values(
            f,
        ).reverse() + rules);
    }
}

proof fn lemma_edited_all_concat(rules: Seq<Rule>, a: Seq<ChainEdit>, b: Seq<ChainEdit>)
    ensures
        edited_all(rules, a + b) == edited_all(edited_all(rules, a), b),
    decreases b.len(),
{
    if b.len() == 0 {
        assert(a + b =~= a);
    } else {
        assert((a + b).drop_last() =~= a + b.drop_last());
        assert((a + b).last() == b.last());
        lemma_edited_all_concat(rules, a, b.drop_last());
    }
}

/// The chain of a policy: what belongs to a standing connection is accepted,
/// then come the denied addresses, then the allowed ones, then everything is
/// dropped.
pub proof fn law_policy_chain(allow: Seq<Text>, deny: Seq<Text>)
    ensures
        edited_all(seq![], policy_edits(allow, deny)) == seq![Rule::Established]
            + deny.map_values(|a: Text| Rule::Drop(a)).reverse() + allow.map_values(
            |a: Text| Rule::Accept(a),
        ).reverse() + seq![Rule::DropAll],
{
    let e1 = seq![ChainEdit::Append(Rule::DropAll)];
    let fa = |a: Text| Rule::Accept(a);
    let fd = |a: Text| Rule::Drop(a);
    let e2 = allow.map_values(|a: Text| ChainEdit::Prepend(fa(a)));
    let e3 = deny.map_values(|a: Text| ChainEdit::Prepend(fd(a)));
    let e4 = seq![ChainEdit::Prepend(Rule::Established)];
    let r0 = Seq::<Rule>::empty();
    assert(policy_edits(allow, deny) =~= ((e1 + e2) + e3) + e4);
    lemma_edited_all_concat(r0, (e1 + e2) + e3, e4);
    lemma_edited_all_concat(r0, e1 + e2, e3);
    lemma_edited_all_concat(r0, e1, e2);
    assert(e1.drop_last() =~= Seq::<ChainEdit>::empty());
    assert(edited_all(r0, e1.drop_last()) == r0);
    assert(edited_all(r0, e1) =~= seq![Rule::DropAll]);
    let r1 = seq![Rule::DropAll];
    lemma_prepends(r1, allow, fa);
    let r2 = allow.map_values(fa).reverse() + r1;
    lemma_prepends(r2, deny, fd);
    let r3 = deny.map_values(fd).reverse() + r2;
    assert(e4.drop_last() =~= Seq::<ChainEdit>::empty());
    assert(edited_all(r3, e4.drop_last()) == r3);
    assert(edited_all(r3, e4) == seq![Rule::Established] + r3);
    assert(seq![Rule::Established] + r3 =~= seq![Rule::Established] + deny.map_values(
        |a: Text| Rule::Drop(a),
    ).reverse() + allow.map_values(|a: Text| Rule::Accept(a)).reverse() + seq![Rule::DropAll]);
}

proof fn lemma_passes_drops(
    deny: Seq<Text>,
    rest: Seq<Rule>,
    matches: spec_fn(Text) -> bool,
    established: bool,
)
    ensures
        passes(
            deny.map_values(|a: Text| Rule::Drop(a)).reverse() + rest,
            matches,
            established,
        ) == (!matches_any(deny, matches) && passes(rest, matches, established)),
    decreases deny.len(),
{
    let rules = deny.map_values(|a: Text| Rule::Drop(a)).reverse() + rest;
    if deny.len() == 0 {
        assert(rules =~= rest);
    } else {
        let head = deny.drop_last();
        lemma_passes_drops(head, rest, matches, established);
        assert(rules[0] == Rule::Drop(deny.last()));
        assert(rules.drop_first() =~= head.map_values(|a: Text| Rule::Drop(a)).reverse() + rest);
        if matches_any(head, matches) {
            let i = choose|i: int| 0 <= i < head.len() && matches(#[trigger] head[i]);
            assert(matches(deny[i]));
        }
        if matches_any(deny, matches) && !matches(deny.last()) {
            let i = choose|i: int| 0 <= i < deny.len() && matches(#[trigger] deny[i]);
            assert(matches(head[i]));
        }
        if matches(deny.last()) {
            assert(matches(deny[deny.len() - 1]));
        }
    }
}

proof fn lemma_passes_accepts(
    allow: Seq<Text>,
    rest: Seq<Rule>,
    matches: spec_fn(Text) -> bool,
    established: bool,
)
    ensures
        passes(
            allow.map_values(|a: Text| Rule::Accept(a)).reverse() + rest,
            matches,
            established,
        ) == (matches_any(allow, matches) || passes(rest, matches, established)),
    decreases allow.len(),
{
    let rules = allow.map_values(|a: Text| Rule::Accept(a)).reverse() + rest;
    if allow.len() == 0 {
        assert(rules =~= rest);
    } else {
        let head = allow.drop_last();
        lemma_passes_accepts(head, rest, matches, established);
        assert(rules[0] == Rule::Accept(allow.last()));
        assert(rules.drop_first() =~= head.map_values(|a: Text| Rule::Accept(a)).reverse() + rest);
        if matches_any(head, matches) {
            let i = choose|i: int| 0 <= i < head.len() && matches(#[trigger] head[i]);
            assert(matches(allow[i]));
        }
        if matches_any(allow, matches) && !matches(allow.last()) {
            let i = choose|i: int| 0 <= i < allow.len() && matches(#[trigger] allow[i]);
            assert(matches(head[i]));
        }
        if matches(allow.last()) {
            assert(matches(allow[allow.len() - 1]));
        }
    }
}

/// What a policy lets pass: what belongs to a standing connection, and what goes
/// to an allowed address that is not denied. Everything else is dropped.
pub proof fn law_policy_verdict(
    allow: Seq<Text>,
    deny: Seq<Text>,
    matches: spec_fn(Text) -> bool,
    established: bool,
)
    ensures
        passes(edited_all(seq![], policy_edits(allow, deny)), matches, established) == (established
            || (!matches_any(deny, matches) && matches_any(allow, matches))),
{
    law_policy_chain(allow, deny);
    let drops = deny.map_values(|a: Text| Rule::Drop(a)).reverse();
    let accepts = allow.map_values(|a: Text| Rule::Accept(a)).reverse();
    let last = seq![Rule::DropAll];
    let chain = seq![Rule::Established] + drops + accepts + last;
    assert(chain.drop_first() =~= drops + (accepts + last));
    lemma_passes_drops(deny, accepts + last, matches, established);
    lemma_passes_accepts(allow, last, matches, established);
    assert(!passes(last, matches, established));
}

// ---------------------------------------------------------------------
// Commands that may need more rights
// ---------------------------------------------------------------------

/// What follows from a command that has ended.
#[derive(Debug)]
pub enum CommandVerdict {
    Success,
    /// The rights do not suffice: run `sudo` with these arguments.
    TrySudo(Vec<String>),
    Failure(CofferError),
}

/// How `sudo` came out.
#[derive(Debug)]
pub enum SudoOutcome {
    /// It ended, with success or not, and wrote this to its standard error.
    Ended { success: bool, stderr: String },
    SpawnFailed(String),
    TimedOut,
}

/// Whether a message says that the rights do not suffice.
pub open spec fn says_denied(err: Text) -> bool {
    occurs(err, "Operation not permitted"@) || occurs(err, "Permission denied"@)
}

/// How a failed command is described.
pub open spec fn failed_text(cmd: Text, args: Seq<Text>, err: Text) -> Text {
    cmd + " "@ + debug_list(args) + " failed: "@ + err
}

fn describe_failure(cmd: &str, args: &Vec<String>, err: &str) -> (r: String)
    ensures
        r@ == failed_text(cmd@, strs(args@), err@),
{
    cat5(cmd, " ", debug_list_text(args).as_str(), " failed: ", err)
}

/// What follows from a command that has ended: its success, another try with
/// more rights where it lacked them, or an error with its message.
pub fn command_verdict(cmd: &str, args: &Vec<String>, success: bool, err: &str) -> (r:
    CommandVerdict)
    ensures
        success ==> r is Success,
        !success && says_denied(err@) ==> (r matches CommandVerdict::TrySudo(a) && strs(a@)
            == seq!["-n"@, cmd@] + strs(args@)),
        !success && !says_denied(err@) ==> (r matches CommandVerdict::Failure(e) && e@
            == ErrorView::Network(failed_text(cmd@, strs(args@), err@))),
{
    if success {
        return CommandVerdict::Success;
    }
    if contains_text(err, "Operation not permitted") || contains_text(err, "Permission denied") {
        let mut sudo: Vec<String> = Vec::new();
        push_text(&mut sudo, "-n");
        push_text(&mut sudo, cmd);
        let mut more = copy_texts(args);
        let ghost before = sudo@;
        sudo.append(&mut more);
        assert(strs(sudo@) =~= strs(before) + strs(args@));
        assert(strs(sudo@) =~= seq!["-n"@, cmd@] + strs(args@));
        return CommandVerdict::TrySudo(sudo);
    }
    CommandVerdict::Failure(CofferError::Network(describe_failure(cmd, args, err)))
}

/// What follows from a command that has ended and wrote `stderr` to its standard
/// error.
pub fn command_ended(cmd: &str, args: &Vec<String>, success: bool, stderr: &[u8]) -> (r:
    CommandVerdict)
    ensures
        success ==> r is Success,
        !success && says_denied(lossy(stderr@)) ==> (r matches CommandVerdict::TrySudo(a) && strs(
            a@,
        ) == seq!["-n"@, cmd@] + strs(args@)),
        !success && !says_denied(lossy(stderr@)) ==> (r matches CommandVerdict::Failure(e) && e@
            == ErrorView::Network(failed_text(cmd@, strs(args@), lossy(stderr@)))),
{
    let err = lossy_text(stderr);
    command_verdict(cmd, args, success, err.as_str())
}

/// How the error of a command is described when `sudo` did not help; `err` is
/// the message of the command itself.
pub open spec fn sudo_error(cmd: Text, args: Seq<Text>, err: Text, outcome: SudoOutcome) -> Text {
    let own = failed_text(cmd, args, trimmed(err));
    match outcome {
        SudoOutcome::Ended { stderr, .. } => own + " (sudo -n fallback: "@ + trimmed(stderr@)
            + ")"@,
        SudoOutcome::SpawnFailed(e) => own + " (sudo spawn error: "@ + e@ + ")"@,
        SudoOutcome::TimedOut => own
            + " (sudo timed out after 3s — passwordless sudo required)"@,
    }
}

/// What follows from the second try with `sudo`.
pub fn sudo_verdict(cmd: &str, args: &Vec<String>, err: &str, outcome: SudoOutcome) -> (r: Result<
    (),
    CofferError,
>)
    ensures
        r is Ok <==> (outcome matches SudoOutcome::Ended { success: true, .. }),
        r matches Err(e) ==> e@ == ErrorView::Network(sudo_error(cmd@, strs(args@), err@, outcome)),
{
    let own = describe_failure(cmd, args, trim_text(err).as_str());
    match outcome {
        SudoOutcome::Ended { success, stderr } => {
            if success {
                Ok(())
            } else {
                let mut m = cat3(
                    own.as_str(),
                    " (sudo -n fallback: ",
                    trim_text(stderr.as_str()).as_str(),
                );
                m.append(")");
                Err(CofferError::Network(m))
            }
        },
        SudoOutcome::SpawnFailed(e) => {
            let mut m = cat3(own.as_str(), " (sudo spawn error: ", e.as_str());
            m.append(")");
            Err(CofferError::Network(m))
        },
        SudoOutcome::TimedOut => Err(
            CofferError::Network(
                cat2(own.as_str(), " (sudo timed out after 3s — passwordless sudo required)"),
            ),
        ),
    }
}

/// How `sudo` came out, with the bytes that it wrote to its standard error.
#[derive(Debug)]
pub enum SudoAttempt {
    Ended { success: bool, stderr: Vec<u8> },
    SpawnFailed(String),
    TimedOut,
}

/// How the error of a command is described when `sudo` did not help; `err` is
/// what the command itself wrote to its standard error.
pub open spec fn attempt_error(cmd: Text, args: Seq<Text>, err: Seq<u8>, attempt: SudoAttempt) -> Text {
    let own = failed_text(cmd, args, trimmed(lossy(err)));
    match attempt {
        SudoAttempt::Ended { stderr, .. } => own + " (sudo -n fallback: "@ + trimmed(lossy(stderr@))
            + ")"@,
        SudoAttempt::SpawnFailed(e) => own + " (sudo spawn error: "@ + e@ + ")"@,
        SudoAttempt::TimedOut => own
            + " (sudo timed out after 3s — passwordless sudo required)"@,
    }
}

/// The verdict on a command that lacked the rights, once `sudo` was tried.
pub fn sudo_ended(cmd: &str, args: &Vec<String>, err: &[u8], attempt: SudoAttempt) -> (r: Result<
    (),
    CofferError,
>)
    ensures
        r is Ok <==> (attempt matches SudoAttempt::Ended { success: true, .. }),
        r matches Err(e) ==> e@ == ErrorView::Network(
            attempt_error(cmd@, strs(args@), err@, attempt),
        ),
{
    let outcome = match attempt {
        SudoAttempt::Ended { success, stderr } => SudoOutcome::Ended {
            success,
            stderr: lossy_text(stderr.as_slice()),
        },
        SudoAttempt::SpawnFailed(e) => SudoOutcome::SpawnFailed(e),
        SudoAttempt::TimedOut => SudoOutcome::TimedOut,
    };
    sudo_verdict(cmd, args, lossy_text(err).as_str(), outcome)
}

// ---------------------------------------------------------------------
// Laws
// ---------------------------------------------------------------------

/// Different devices have different chains, so the rules of one sandbox do not
/// touch those of another.
pub proof fn law_chains_distinct(a: Text, b: Text)
    requires
        a != b,
    ensures
        chain_of(a) != chain_of(b),
{
    let n = "COFFER-"@.len() as int;
    assert(chain_of(a).skip(n) =~= a);
    assert(chain_of(b).skip(n) =~= b);
}

/// What was recorded for a VM is what its removal takes apart, and then nothing
/// is left of it.
pub proof fn law_record_then_remove(s: NetworkState, vm_id: Text, tap: Text)
    requires
        !s.taps.dom().contains(vm_id),
    ensures
        s.taps.insert(vm_id, tap)[vm_id] == tap,
        s.taps.insert(vm_id, tap).remove(vm_id) == s.taps,
{
    assert(s.taps.insert(vm_id, tap).remove(vm_id) =~= s.taps);
}

/// How far the setup has come in a phase.
pub open spec fn phase_rank(p: SetupPhase) -> int {
    match p {
        SetupPhase::Create => 0,
        SetupPhase::Up => 1,
        SetupPhase::Address => 2,
        SetupPhase::Forward => 3,
        SetupPhase::CheckNat => 4,
        SetupPhase::AddNat => 5,
        SetupPhase::Done => 6,
    }
}

/// The setup comes to its end: each phase but the last is followed by a later
/// one, or by an error.
pub proof fn law_setup_advances(phase: SetupPhase, result: SetupResult)
    requires
        phase != SetupPhase::Done,
    ensures
        setup_after(phase, result) matches Ok(p) ==> phase_rank(p) > phase_rank(phase),
{
}

/// A word: some characters, none of them white space.
pub open spec fn is_word(w: Text) -> bool {
    w.len() > 0 && forall|i: int| 0 <= i < w.len() ==> !is_space(#[trigger] w[i])
}

pub proof fn lemma_word_len_of(w: Text, rest: Text)
    requires
        forall|i: int| 0 <= i < w.len() ==> !is_space(#[trigger] w[i]),
        rest.len() == 0 || is_space(rest[0]),
    ensures
        word_len(w + rest) == w.len(),
    decreases w.len(),
{
    if w.len() == 0 {
        assert(w + rest =~= rest);
    } else {
        let t = w.drop_first();
        assert forall|i: int| 0 <= i < t.len() implies !is_space(#[trigger] t[i]) by {
            assert(t[i] == w[i + 1]);
        }
        lemma_word_len_of(t, rest);
        assert((w + rest).drop_first() =~= t + rest);
        assert((w + rest)[0] == w[0]);
    }
}

proof fn lemma_words_cons(w: Text, rest: Text)
    requires
        is_word(w),
    ensures
        words_of(w + seq![' '] + rest) == seq![w] + words_of(rest),
{
    let tail = seq![' '] + rest;
    let s = w + seq![' '] + rest;
    assert(s =~= w + tail);
    lemma_word_len_of(w, tail);
    assert(s[0] == w[0]);
    assert(trim_start(s) == s);
    assert(s.take(w.len() as int) =~= w);
    assert(s.skip(w.len() as int) =~= tail);
    assert(tail.drop_first() =~= rest);
    assert(trim_start(tail) == trim_start(rest));
    assert(words_of(tail) == words_of(rest));
}

proof fn lemma_words_last(w: Text)
    requires
        is_word(w),
    ensures
        words_of(w) == seq![w],
{
    lemma_word_len_of(w, seq![]);
    assert(w + Seq::<char>::empty() =~= w);
    assert(trim_start(w) == w);
    assert(w.take(w.len() as int) =~= w);
    assert(w.skip(w.len() as int) =~= Seq::<char>::empty());
    assert(words_of(Seq::<char>::empty()) =~= Seq::<Text>::empty());
    assert(words_of(w) =~= seq![w]);
}

/// The rule that is looked for is the rule that is added.
pub proof fn law_nat_rule_checked_is_added(subnet: Text, bridge: Text)
    requires
        is_word(subnet),
        is_word(bridge),
    ensures
        check_args("nat"@, nat_rule(subnet, bridge)) == nat_args(subnet, bridge).update(2, "-C"@),
{
    reveal_strlit("POSTROUTING -s ");
    reveal_strlit(" ! -o ");
    reveal_strlit(" -j MASQUERADE");
    reveal_strlit("POSTROUTING");
    reveal_strlit("-s");
    reveal_strlit("!");
    reveal_strlit("-o");
    reveal_strlit("-j");
    reveal_strlit("MASQUERADE");
    let sp = seq![' '];
    let r7 = "MASQUERADE"@;
    let r6 = "-j"@ + sp + r7;
    let r5 = bridge + sp + r6;
    let r4 = "-o"@ + sp + r5;
    let r3 = "!"@ + sp + r4;
    let r2 = subnet + sp + r3;
    let r1 = "-s"@ + sp + r2;
    let r0 = "POSTROUTING"@ + sp + r1;
    assert(nat_rule(subnet, bridge) =~= r0);
    lemma_words_last(r7);
    lemma_words_cons("-j"@, r7);
    lemma_words_cons(bridge, r6);
    lemma_words_cons("-o"@, r5);
    lemma_words_cons("!"@, r4);
    lemma_words_cons(subnet, r3);
    lemma_words_cons("-s"@, r2);
    lemma_words_cons("POSTROUTING"@, r1);
    assert(check_args("nat"@, r0) =~= nat_args(subnet, bridge).update(2, "-C"@));
}

/// The jump that is looked for is the jump that is added.
pub proof fn law_jump_checked_is_added(tap: Text)
    requires
        is_word(tap),
    ensures
        check_args("filter"@, jump_rule(tap)) == seq!["-t"@, "filter"@] + filter_command(
            FilterCommand::Jump(tap),
        ).update(0, "-C"@),
{
    reveal_strlit("FORWARD -i ");
    reveal_strlit(" -j ");
    reveal_strlit("FORWARD");
    reveal_strlit("-i");
    reveal_strlit("-j");
    reveal_strlit("COFFER-");
    let sp = seq![' '];
    let chain = chain_of(tap);
    assert forall|i: int| 0 <= i < chain.len() implies !is_space(#[trigger] chain[i]) by {
        let n = "COFFER-"@.len() as int;
        if i >= n {
            assert(chain[i] == tap[i - n]);
        }
    }
    let r3 = "-j"@ + sp + chain;
    let r2 = tap + sp + r3;
    let r1 = "-i"@ + sp + r2;
    let r0 = "FORWARD"@ + sp + r1;
    assert(jump_rule(tap) =~= r0);
    lemma_words_last(chain);
    lemma_words_cons("-j"@, chain);
    lemma_words_cons(tap, r3);
    lemma_words_cons("-i"@, r2);
    lemma_words_cons("FORWARD"@, r1);
    assert(check_args("filter"@, r0) =~= seq!["-t"@, "filter"@] + filter_command(
        FilterCommand::Jump(tap),
    ).update(0, "-C"@));
}

proof fn lemma_ran_edits(f: Filter, chain: Text, edits: Seq<ChainEdit>)
    requires
        f.chains.dom().contains(chain),
    ensures
        ran_all(f, edits.map_values(|e: ChainEdit| FilterCommand::Edit(chain, e))) == (Filter {
            chains: f.chains.insert(chain, edited_all(f.chains[chain], edits)),
            ..f
        }),
    decreases edits.len(),
{
    let cs = edits.map_values(|e: ChainEdit| FilterCommand::Edit(chain, e));
    if edits.len() == 0 {
        assert(f.chains.insert(chain, f.chains[chain]) =~= f.chains);
    } else {
        let head = edits.drop_last();
        lemma_ran_edits(f, chain, head);
        assert(cs.drop_last() =~= head.map_values(|e: ChainEdit| FilterCommand::Edit(chain, e)));
        let g = ran_all(f, cs.drop_last());
        assert(ran_all(f, cs).chains =~= f.chains.insert(
            chain,
            edited_all(f.chains[chain], edits),
        ));
    }
}

proof fn lemma_ran_all_concat(f: Filter, a: Seq<FilterCommand>, b: Seq<FilterCommand>)
    ensures
        ran_all(f, a + b) == ran_all(ran_all(f, a), b),
    decreases b.len(),
{
    if b.len() == 0 {
        assert(a + b =~= a);
    } else {
        lemma_ran_all_concat(f, a, b.drop_last());
        assert((a + b).drop_last() =~= a + b.drop_last());
    }
}

/// A policy that was applied leaves the chain of its device with exactly its
/// rules, adds the jump where there was none, and touches nothing else.
pub proof fn law_policy_applied(f: Filter, tap: Text, allow: Seq<Text>, deny: Seq<Text>)
    ensures
        policy_applied(f, tap, allow, deny) == (Filter {
            jumps: if f.jumps.contains(tap) {
                f.jumps
            } else {
                f.jumps.push(tap)
            },
            chains: f.chains.insert(
                chain_of(tap),
                edited_all(seq![], policy_edits(allow, deny)),
            ),
        }),
{
    let chain = chain_of(tap);
    let edits = policy_edits(allow, deny);
    let prepare = policy_prepare(tap);
    let g1 = ran(f, FilterCommand::New(chain));
    let g = ran(g1, FilterCommand::Flush(chain));
    assert(prepare.drop_last() =~= seq![FilterCommand::New(chain)]);
    assert(prepare.drop_last().drop_last() =~= Seq::<FilterCommand>::empty());
    reveal_with_fuel(ran_all, 3);
    assert(ran_all(f, prepare) == g);
    assert(g.chains =~= f.chains.insert(chain, seq![]));
    let fills = edits.map_values(|e: ChainEdit| FilterCommand::Edit(chain, e));
    let h = if f.jumps.contains(tap) {
        g
    } else {
        Filter { jumps: g.jumps.push(tap), ..g }
    };
    let jump = seq![FilterCommand::Jump(tap)];
    assert(jump.drop_last() =~= Seq::<FilterCommand>::empty());
    assert(ran_all(g, jump) == ran(g, FilterCommand::Jump(tap)));
    lemma_ran_all_concat(g, jump, fills);
    lemma_ran_edits(h, chain, edits);
    assert(h.chains.insert(chain, edited_all(seq![], edits)) =~= f.chains.insert(
        chain,
        edited_all(seq![], edits),
    ));
}

/// A policy that is applied again leaves the table as it is: the same chain, and
/// no second jump.
pub proof fn law_policy_repeated(f: Filter, tap: Text, allow: Seq<Text>, deny: Seq<Text>)
    ensures
        ({
            let once = policy_applied(f, tap, allow, deny);
            &&& once.jumps.contains(tap)
            &&& policy_applied(once, tap, allow, deny) == once
        }),
{
    let once = policy_applied(f, tap, allow, deny);
    law_policy_applied(f, tap, allow, deny);
    law_policy_applied(once, tap, allow, deny);
    if !f.jumps.contains(tap) {
        assert(once.jumps[f.jumps.len() as int] == tap);
    }
    assert(once.chains.insert(chain_of(tap), once.chains[chain_of(tap)]) =~= once.chains);
}

/// The policy of one device leaves the chain and the jumps of another as they
/// were.
pub proof fn law_policies_are_apart(
    f: Filter,
    tap: Text,
    other: Text,
    allow: Seq<Text>,
    deny: Seq<Text>,
)
    requires
        tap != other,
    ensures
        ({
            let after = policy_applied(f, tap, allow, deny);
            &&& after.jumps.contains(other) <==> f.jumps.contains(other)
            &&& after.chains.dom().contains(chain_of(other)) <==> f.chains.dom().contains(
                chain_of(other),
            )
            &&& f.chains.dom().contains(chain_of(other)) ==> after.chains[chain_of(other)]
                == f.chains[chain_of(other)]
        }),
{
    law_policy_applied(f, tap, allow, deny);
    law_chains_distinct(tap, other);
    let after = policy_applied(f, tap, allow, deny);
    if after.jumps.contains(other) && !f.jumps.contains(tap) {
        let i = choose|i: int| 0 <= i < after.jumps.len() && after.jumps[i] == other;
        assert(f.jumps[i] == other);
    }
    if f.jumps.contains(other) {
        let i = choose|i: int| 0 <= i < f.jumps.len() && f.jumps[i] == other;
        assert(after.jumps[i] == other);
    }
}

/// Some words with blanks between them.
pub open spec fn with_blanks(words: Seq<Text>) -> Text
    decreases words.len(),
{
    if words.len() == 0 {
        seq![]
    } else if words.len() == 1 {
        words[0]
    } else {
        words[0] + seq![' '] + with_blanks(words.drop_first())
    }
}

proof fn lemma_words_apart(words: Seq<Text>)
    requires
        forall|i: int| 0 <= i < words.len() ==> is_word(#[trigger] words[i]),
    ensures
        words_of(with_blanks(words)) == words,
    decreases words.len(),
{
    if words.len() == 0 {
        assert(words_of(Seq::<char>::empty()) =~= words);
    } else if words.len() == 1 {
        lemma_words_last(words[0]);
        assert(seq![words[0]] =~= words);
    } else {
        let rest = words.drop_first();
        assert forall|i: int| 0 <= i < rest.len() implies is_word(#[trigger] rest[i]) by {
            assert(rest[i] == words[i + 1]);
        }
        lemma_words_apart(rest);
        lemma_words_cons(words[0], with_blanks(rest));
        assert(seq![words[0]] + rest =~= words);
    }
}

/// Words that were put together with blanks come apart again; so a rule is asked
/// for by its words.
pub proof fn law_words_come_apart(
    words: Seq<Text>,
    s: &str,
    r: Vec<String>,
    table: &str,
    asked: Vec<String>,
)
    requires
        forall|i: int| 0 <= i < words.len() ==> is_word(#[trigger] words[i]),
        s@ == with_blanks(words),
        call_ensures(split_words, (s,), r),
        call_ensures(iptables_has_rule, (table, s), asked),
    ensures
        strs(r@) == words,
        strs(asked@) == seq!["-t"@, table@, "-C"@] + words,
{
    lemma_words_apart(words);
}

/// A command that lacks the rights, and no other, is tried again with more of
/// them, as the same command; one that fails otherwise is told with its words and
/// its message. Whether it is tried depends on what it wrote alone.
pub proof fn law_rights_are_asked_for(
    cmd: &str,
    args: &Vec<String>,
    success: bool,
    err: &str,
    r: CommandVerdict,
)
    requires
        call_ensures(command_verdict, (cmd, args, success, err), r),
    ensures
        r is Success <==> success,
        r is TrySudo <==> !success && (occurs(err@, "Operation not permitted"@) || occurs(
            err@,
            "Permission denied"@,
        )),
        r matches CommandVerdict::TrySudo(a) ==> strs(a@).len() == args@.len() + 2 && strs(a@)[0]
            == "-n"@ && strs(a@)[1] == cmd@ && strs(a@).skip(2) == strs(args@),
        r matches CommandVerdict::Failure(e) ==> (e@ matches ErrorView::Network(m)
            && cmd@.is_prefix_of(m) && err@.is_suffix_of(m)),
{
    match r {
        CommandVerdict::TrySudo(a) => {
            assert(strs(a@).skip(2) =~= strs(args@));
        },
        CommandVerdict::Failure(e) => {
            let m = e@->Network_0;
            assert(m.subrange(0, cmd@.len() as int) =~= cmd@);
            assert(m.subrange(m.len() - err@.len(), m.len() as int) =~= err@);
        },
        _ => {},
    }
}

/// The second try decides: a command has succeeded if and only if it did; else the
/// error names the command, what it said itself, and what became of the second
/// try.
pub proof fn law_second_try_decides(
    cmd: &str,
    args: &Vec<String>,
    err: &[u8],
    attempt: SudoAttempt,
    r: Result<(), CofferError>,
)
    requires
        call_ensures(sudo_ended, (cmd, args, err, attempt), r),
    ensures
        r is Ok <==> (attempt matches SudoAttempt::Ended { success, .. } && success),
        r matches Err(e) ==> (e@ matches ErrorView::Network(m) && {
            &&& cmd@.is_prefix_of(m)
            &&& occurs(m, trimmed(lossy(err@)))
            &&& attempt matches SudoAttempt::Ended { stderr, .. } ==> occurs(
                m,
                trimmed(lossy(stderr@)),
            )
            &&& attempt matches SudoAttempt::SpawnFailed(why) ==> occurs(m, why@)
        }),
{
    if r is Err {
        let m = r->Err_0@->Network_0;
        let own = failed_text(cmd@, strs(args@), trimmed(lossy(err@)));
        let said = trimmed(lossy(err@));
        let n = own.len() as int;
        assert(m.subrange(0, cmd@.len() as int) =~= cmd@);
        assert(m.subrange(n - said.len(), n) =~= said);
        assert(crate::text::occurs_at(m, said, n - said.len()));
        match attempt {
            SudoAttempt::Ended { stderr, .. } => {
                let t = trimmed(lossy(stderr@));
                let k = n + " (sudo -n fallback: "@.len();
                assert(m.subrange(k, k + t.len()) =~= t);
                assert(crate::text::occurs_at(m, t, k));
            },
            SudoAttempt::SpawnFailed(why) => {
                let k = n + " (sudo spawn error: "@.len();
                assert(m.subrange(k, k + why@.len()) =~= why@);
                assert(crate::text::occurs_at(m, why@, k));
            },
            SudoAttempt::TimedOut => {},
        }
    }
}

} // verus!
