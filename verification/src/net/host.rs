//! What the steps on interfaces and the commands to `iptables` do to the host,
//! and what the operations of the network manager make of the host by them.

use vstd::prelude::*;

use crate::error::CofferError;
use crate::net::{check_args, is_word, law_nat_rule_checked_is_added, link_steps, nat_args, nat_rule, setup_next,
    LinkStep, LinkStepView, NetworkManager, SetupAction, SetupActionView, SetupPhase, SetupResult, TapDevice,
    TapPlan};
use crate::text::{occurs, strs, Text};

verus! {

broadcast use vstd::string::group_string_axioms;

/// The network of a host.
#[verifier::ext_equal]
pub struct Host {
    pub links: Set<Text>,
    pub up: Set<Text>,
    /// The addresses, each with the link that has it.
    pub addresses: Set<(Text, Text)>,
    /// Of each device on a bridge, the bridge.
    pub bridge_of: Map<Text, Text>,
    /// What was written to files of the system.
    pub files: Map<Text, Text>,
    /// The rules of the `nat` table, each as its chain and its words.
    pub nat_rules: Seq<Seq<Text>>,
}

/// The host after a step on an interface: only a link that exists can be changed.
pub open spec fn after_link(h: Host, s: LinkStepView) -> Host {
    match s {
        LinkStepView::CreateBridge { bridge } => Host { links: h.links.insert(bridge), ..h },
        LinkStepView::CreateTap { tap } => Host { links: h.links.insert(tap), ..h },
        LinkStepView::DeleteTap { tap } => Host {
            links: h.links.remove(tap),
            up: h.up.remove(tap),
            bridge_of: h.bridge_of.remove(tap),
            ..h
        },
        LinkStepView::Up { link } => if h.links.contains(link) {
            Host { up: h.up.insert(link), ..h }
        } else {
            h
        },
        LinkStepView::Down { link } => Host { up: h.up.remove(link), ..h },
        LinkStepView::AddAddress { link, cidr } => if h.links.contains(link) {
            Host { addresses: h.addresses.insert((link, cidr)), ..h }
        } else {
            h
        },
        LinkStepView::AddToBridge { tap, bridge } => if h.links.contains(tap) && h.links.contains(
            bridge,
        ) {
            Host { bridge_of: h.bridge_of.insert(tap, bridge), ..h }
        } else {
            h
        },
        LinkStepView::RemoveFromBridge { tap, bridge } => if h.bridge_of.dom().contains(tap)
            && h.bridge_of[tap] == bridge {
            Host { bridge_of: h.bridge_of.remove(tap), ..h }
        } else {
            h
        },
    }
}

/// The host after some steps, in order.
pub open spec fn after_links(h: Host, steps: Seq<LinkStepView>) -> Host
    decreases steps.len(),
{
    if steps.len() == 0 {
        h
    } else {
        after_link(after_links(h, steps.drop_last()), steps.last())
    }
}

/// The host after an action of the setup. A command to `iptables` that appends to
/// the `nat` table adds the rule that follows.
pub open spec fn after_setup(h: Host, a: SetupActionView) -> Host {
    match a {
        SetupActionView::Link(s) => after_link(h, s),
        SetupActionView::WriteFile { path, content } => Host {
            files: h.files.insert(path, content),
            ..h
        },
        SetupActionView::Run(args) => if args.len() > 3 && args.take(3) == seq!["-t"@, "nat"@, "-A"@] {
            Host { nat_rules: h.nat_rules.push(args.skip(3)), ..h }
        } else {
            h
        },
        SetupActionView::Check(_) => h,
        SetupActionView::Nothing => h,
    }
}

/// What `iptables` answers to the question of an action.
pub open spec fn answer(h: Host, a: SetupActionView) -> bool {
    a matches SetupActionView::Check(args) && args.len() > 3 && args.take(3) == seq![
        "-t"@,
        "nat"@,
        "-C"@,
    ] && h.nat_rules.contains(args.skip(3))
}

/// The rule under which what leaves a network by another device than its bridge
/// carries the address of the host.
pub open spec fn masquerade(subnet: Text, bridge: Text) -> Seq<Text> {
    seq!["POSTROUTING"@, "-s"@, subnet, "!"@, "-o"@, bridge, "-j"@, "MASQUERADE"@]
}

/// The host once a bridge was set up for a network: the bridge exists, is up and
/// has its address, packets are forwarded, and the rule is there, once where it
/// was not there before. Nothing else has changed.
pub open spec fn bridged(h: Host, bridge: Text, subnet: Text) -> Host {
    Host {
        links: h.links.insert(bridge),
        up: h.up.insert(bridge),
        addresses: h.addresses.insert((bridge, subnet)),
        bridge_of: h.bridge_of,
        files: h.files.insert("/proc/sys/net/ipv4/ip_forward"@, "1\n"@),
        nat_rules: if h.nat_rules.contains(masquerade(subnet, bridge)) {
            h.nat_rules
        } else {
            h.nat_rules.push(masquerade(subnet, bridge))
        },
    }
}

/// The setup of the bridge, each action with success, in the order in which the
/// phases follow one another, ends in a host with the bridge.
pub proof fn law_setup_makes_the_bridge(
    m: &NetworkManager,
    h: Host,
    create: SetupAction,
    p1: SetupPhase,
    up: SetupAction,
    p2: SetupPhase,
    address: SetupAction,
    p3: SetupPhase,
    forward: SetupAction,
    p4: SetupPhase,
    check: SetupAction,
    p5: SetupPhase,
    last: SetupAction,
    p6: SetupPhase,
)
    requires
        is_word(m@.subnet),
        is_word(m@.bridge_name),
        call_ensures(NetworkManager::setup_action, (m, SetupPhase::Create), create),
        call_ensures(
            setup_next,
            (SetupPhase::Create, SetupResult::Done),
            Ok::<SetupPhase, CofferError>(p1),
        ),
        call_ensures(NetworkManager::setup_action, (m, p1), up),
        call_ensures(setup_next, (p1, SetupResult::Done), Ok::<SetupPhase, CofferError>(p2)),
        call_ensures(NetworkManager::setup_action, (m, p2), address),
        call_ensures(setup_next, (p2, SetupResult::Done), Ok::<SetupPhase, CofferError>(p3)),
        call_ensures(NetworkManager::setup_action, (m, p3), forward),
        call_ensures(setup_next, (p3, SetupResult::Done), Ok::<SetupPhase, CofferError>(p4)),
        call_ensures(NetworkManager::setup_action, (m, p4), check),
        call_ensures(
            setup_next,
            (p4, SetupResult::Found(answer(h, check@))),
            Ok::<SetupPhase, CofferError>(p5),
        ),
        call_ensures(NetworkManager::setup_action, (m, p5), last),
        call_ensures(setup_next, (p5, SetupResult::Done), Ok::<SetupPhase, CofferError>(p6)),
    ensures
        p6 == SetupPhase::Done,
        check@ is Check,
        ({
            let g = after_setup(
                after_setup(
                    after_setup(
                        after_setup(after_setup(after_setup(h, create@), up@), address@),
                        forward@,
                    ),
                    check@,
                ),
                last@,
            );
            &&& g == bridged(h, m@.bridge_name, m@.subnet)
            &&& g.links.contains(m@.bridge_name)
            &&& g.up.contains(m@.bridge_name)
            &&& g.addresses.contains((m@.bridge_name, m@.subnet))
            &&& g.nat_rules.contains(masquerade(m@.subnet, m@.bridge_name))
        }),
{
    let subnet = m@.subnet;
    let bridge = m@.bridge_name;
    law_nat_rule_checked_is_added(subnet, bridge);
    let rule = masquerade(subnet, bridge);
    let asked = check_args("nat"@, nat_rule(subnet, bridge));
    let added = nat_args(subnet, bridge);
    assert(asked =~= seq!["-t"@, "nat"@, "-C"@] + rule);
    assert(asked.take(3) =~= seq!["-t"@, "nat"@, "-C"@]);
    assert(asked.skip(3) =~= rule);
    assert(added.take(3) =~= seq!["-t"@, "nat"@, "-A"@]);
    assert(added.skip(3) =~= rule);
    if !h.nat_rules.contains(rule) {
        assert(h.nat_rules.push(rule)[h.nat_rules.len() as int] == rule);
    }
}

/// A bridge that exists is taken as it is, and set up further; any other failure
/// of a step on the bridge ends the setup with the very error. That packets
/// cannot be forwarded, or that a rule cannot be asked for or added, does not.
pub proof fn law_setup_failures(
    phase: SetupPhase,
    e: CofferError,
    r: Result<SetupPhase, CofferError>,
    done: Result<SetupPhase, CofferError>,
    msg: String,
    exists_already: Result<SetupPhase, CofferError>,
)
    requires
        call_ensures(setup_next, (phase, SetupResult::Failed(e)), r),
        call_ensures(setup_next, (phase, SetupResult::Done), done),
        occurs(msg@, "File exists"@),
        call_ensures(
            setup_next,
            (SetupPhase::Create, SetupResult::Failed(CofferError::Network(msg))),
            exists_already,
        ),
    ensures
        exists_already is Ok,
        done is Ok,
        phase == SetupPhase::Create ==> exists_already == done,
        phase == SetupPhase::Up || phase == SetupPhase::Address ==> (r matches Err(x) && x@ == e@),
        phase == SetupPhase::Create && !(e is Network) ==> (r matches Err(x) && x@ == e@),
        phase == SetupPhase::Forward || phase == SetupPhase::CheckNat || phase
            == SetupPhase::AddNat ==> r == done,
{
}

proof fn lemma_three(h: Host, steps: Seq<LinkStepView>)
    requires
        steps.len() == 3,
    ensures
        after_links(h, steps) == after_link(
            after_link(after_link(h, steps[0]), steps[1]),
            steps[2],
        ),
{
    reveal_with_fuel(after_links, 4);
    assert(steps.drop_last().last() == steps[1]);
    assert(steps.drop_last().drop_last().last() == steps[0]);
}

/// The steps that give a VM its device leave a device that is up and on the
/// bridge; once it is recorded, the steps that take it away again leave the host
/// as it was, and nothing is recorded of it any more.
pub proof fn law_tap_comes_and_goes(
    m: &NetworkManager,
    vm_id: &str,
    plan: Result<TapPlan, CofferError>,
    recorded: &mut NetworkManager,
    device: TapDevice,
    removed: &mut NetworkManager,
    steps: Vec<LinkStep>,
    h: Host,
)
    requires
        call_ensures(NetworkManager::allocate_tap, (m, vm_id), plan),
        plan is Ok,
        *old(recorded) == *m,
        device.vm_id@ == vm_id@,
        device.name@ == plan->Ok_0.name@,
        call_ensures(NetworkManager::record_tap, (recorded, device), ()),
        *old(removed) == *final(recorded),
        call_ensures(NetworkManager::deallocate_tap, (removed, vm_id), steps),
        h.links.contains(m@.bridge_name),
        !h.links.contains(plan->Ok_0.name@),
        !h.up.contains(plan->Ok_0.name@),
        !h.bridge_of.dom().contains(plan->Ok_0.name@),
        !m@.taps.dom().contains(vm_id@),
    ensures
        ({
            let tap = plan->Ok_0.name@;
            let g = after_links(h, link_steps(plan->Ok_0.steps@));
            &&& g == (Host {
                links: h.links.insert(tap),
                up: h.up.insert(tap),
                bridge_of: h.bridge_of.insert(tap, m@.bridge_name),
                ..h
            })
            &&& after_links(g, link_steps(steps@)) == h
            &&& final(recorded)@.taps.dom().contains(vm_id@)
            &&& final(recorded)@.taps[vm_id@] == tap
            &&& final(removed)@ == m@
        }),
{
    let tap = plan->Ok_0.name@;
    let g = after_links(h, link_steps(plan->Ok_0.steps@));
    lemma_three(h, link_steps(plan->Ok_0.steps@));
    lemma_three(g, link_steps(steps@));
    let back = after_links(g, link_steps(steps@));
    assert(back.links =~= h.links);
    assert(back.up =~= h.up);
    assert(back.bridge_of =~= h.bridge_of);
    assert(back =~= h);
    assert(final(removed)@.taps =~= m@.taps);
}

/// A VM without a device has nothing that could be taken away.
pub proof fn law_no_tap_no_steps(m: &mut NetworkManager, vm_id: &str, steps: Vec<LinkStep>)
    requires
        !old(m)@.taps.dom().contains(vm_id@),
        call_ensures(NetworkManager::deallocate_tap, (m, vm_id), steps),
    ensures
        steps@.len() == 0,
        final(m)@ == old(m)@,
{
    assert(link_steps(steps@).len() == steps@.len());
    assert(old(m)@.taps.remove(vm_id@) =~= old(m)@.taps);
}

/// The bridge is set up by one caller at a time, and again only after a failure.
pub proof fn law_setup_once(
    m: &mut NetworkManager,
    first: bool,
    m2: &mut NetworkManager,
    outcome: Result<(), CofferError>,
    ended: Result<(), CofferError>,
    m3: &mut NetworkManager,
    again: bool,
)
    requires
        call_ensures(NetworkManager::setup_bridge, (m,), first),
        *old(m2) == *final(m),
        call_ensures(NetworkManager::end_setup, (m2, outcome), ended),
        *old(m3) == *final(m2),
        call_ensures(NetworkManager::setup_bridge, (m3,), again),
    ensures
        first <==> !old(m)@.bridge_setup,
        ended is Ok <==> outcome is Ok,
        again <==> outcome is Err,
        final(m)@.taps == old(m)@.taps,
        final(m3)@.taps == old(m)@.taps,
{
}

/// A step, and an action of the setup, is seen as what it is.
pub proof fn law_steps_are_seen_as_they_are(
    a: String,
    b: String,
    path: &'static str,
    content: &'static str,
    words: Vec<String>,
    s: LinkStep,
)
    ensures
        (LinkStep::CreateBridge { bridge: a })@ == (LinkStepView::CreateBridge { bridge: a@ }),
        (LinkStep::AddAddress { link: a, cidr: b })@ == (LinkStepView::AddAddress {
            link: a@,
            cidr: b@,
        }),
        (LinkStep::CreateTap { tap: a })@ == (LinkStepView::CreateTap { tap: a@ }),
        (LinkStep::DeleteTap { tap: a })@ == (LinkStepView::DeleteTap { tap: a@ }),
        (LinkStep::Up { link: a })@ == (LinkStepView::Up { link: a@ }),
        (LinkStep::Down { link: a })@ == (LinkStepView::Down { link: a@ }),
        (LinkStep::AddToBridge { tap: a, bridge: b })@ == (LinkStepView::AddToBridge {
            tap: a@,
            bridge: b@,
        }),
        (LinkStep::RemoveFromBridge { tap: a, bridge: b })@ == (LinkStepView::RemoveFromBridge {
            tap: a@,
            bridge: b@,
        }),
        SetupAction::Link(s)@ == SetupActionView::Link(s@),
        (SetupAction::WriteFile { path, content })@ == (SetupActionView::WriteFile {
            path: path@,
            content: content@,
        }),
        SetupAction::Check(words)@ == SetupActionView::Check(strs(words@)),
        SetupAction::Run(words)@ == SetupActionView::Run(strs(words@)),
        SetupAction::Nothing@ is Nothing,
{
}

} // verus!
