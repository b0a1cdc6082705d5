//! How a change of an interface is carried out: which requests it makes of the
//! kernel, in which order, and what it comes to.

use vstd::prelude::*;

use crate::error::{CofferError, ErrorView};
use crate::net::raw::{flags_down, flags_up, mask_value, op_error, op_failed, parse_cidr, parsed_cidr, Ipv4, NetOp,
    IFF_UP};
use crate::net::{LinkStep, LinkStepView};
use crate::text::{cat2, Text};

verus! {

broadcast use vstd::string::group_string_axioms;

/// A request of the kernel.
#[derive(Debug)]
pub enum NetAction {
    /// Open the device that makes TAP devices.
    OpenTun,
    /// Open a socket for requests.
    OpenSocket,
    AttachTap { name: String },
    /// Whether the attached TAP device outlives this.
    PersistTap(bool),
    GetFlags { name: String },
    SetFlags { name: String, flags: i16 },
    CreateBridge { name: String },
    GetIndex { name: String },
    AddToBridge { bridge: String, index: i32 },
    RemoveFromBridge { bridge: String, index: i32 },
    SetAddress { name: String, ip: Ipv4 },
    SetNetmask { name: String, mask: Ipv4 },
    /// Close what was opened: the change is made, or came to an error.
    Finish(Result<(), CofferError>),
}

/// The answer of the kernel.
#[derive(Debug)]
pub enum NetReply {
    Done,
    Flags(i16),
    Index(i32),
    Failed { errno: Option<i32>, reason: String },
}

pub enum NetActionView {
    OpenTun,
    OpenSocket,
    AttachTap { name: Text },
    PersistTap(bool),
    GetFlags { name: Text },
    SetFlags { name: Text, flags: i16 },
    CreateBridge { name: Text },
    GetIndex { name: Text },
    AddToBridge { bridge: Text, index: i32 },
    RemoveFromBridge { bridge: Text, index: i32 },
    SetAddress { name: Text, ip: Ipv4 },
    SetNetmask { name: Text, mask: Ipv4 },
    Success,
    Failure(ErrorView),
}

impl View for NetAction {
    type V = NetActionView;

    open spec fn view(&self) -> NetActionView {
        match *self {
            NetAction::OpenTun => NetActionView::OpenTun,
            NetAction::OpenSocket => NetActionView::OpenSocket,
            NetAction::AttachTap { name } => NetActionView::AttachTap { name: name@ },
            NetAction::PersistTap(on) => NetActionView::PersistTap(on),
            NetAction::GetFlags { name } => NetActionView::GetFlags { name: name@ },
            NetAction::SetFlags { name, flags } => NetActionView::SetFlags { name: name@, flags },
            NetAction::CreateBridge { name } => NetActionView::CreateBridge { name: name@ },
            NetAction::GetIndex { name } => NetActionView::GetIndex { name: name@ },
            NetAction::AddToBridge { bridge, index } => NetActionView::AddToBridge {
                bridge: bridge@,
                index,
            },
            NetAction::RemoveFromBridge { bridge, index } => NetActionView::RemoveFromBridge {
                bridge: bridge@,
                index,
            },
            NetAction::SetAddress { name, ip } => NetActionView::SetAddress { name: name@, ip },
            NetAction::SetNetmask { name, mask } => NetActionView::SetNetmask { name: name@, mask },
            NetAction::Finish(Ok(_)) => NetActionView::Success,
            NetAction::Finish(Err(e)) => NetActionView::Failure(e@),
        }
    }
}

/// The request with which a change begins.
pub open spec fn first_op(step: LinkStepView) -> NetOp {
    match step {
        LinkStepView::CreateTap { .. } => NetOp::OpenTun,
        LinkStepView::DeleteTap { .. } => NetOp::OpenTun,
        _ => NetOp::Socket,
    }
}

/// The outcome of a request that failed in a change. The removal of a TAP device
/// never comes to an error: what cannot be opened or attached is not there.
pub open spec fn after_failure(
    step: LinkStepView,
    at: NetOp,
    errno: Option<i32>,
    reason: Text,
) -> NetActionView {
    let name = match step {
        LinkStepView::CreateBridge { bridge } => bridge,
        LinkStepView::AddAddress { link, .. } => link,
        LinkStepView::CreateTap { tap } => tap,
        LinkStepView::DeleteTap { tap } => tap,
        LinkStepView::Up { link } => link,
        LinkStepView::Down { link } => link,
        LinkStepView::AddToBridge { tap, .. } => tap,
        LinkStepView::RemoveFromBridge { tap, .. } => tap,
    };
    if step is DeleteTap {
        NetActionView::Success
    } else {
        match op_error(at, name, errno, reason) {
            Some(e) => NetActionView::Failure(e),
            None => NetActionView::Success,
        }
    }
}

/// The state of a change: what it is, the request that was made last, and the
/// addresses that it sets.
pub struct LinkState {
    pub step: LinkStepView,
    pub at: NetOp,
    pub ip: Ipv4,
    pub mask: Ipv4,
}

/// The next state and the next request, after the answer to the last one. An
/// answer that does not fit ends the change without an error.
pub open spec fn link_next(s: LinkState, reply: NetReply) -> (LinkState, NetActionView) {
    match reply {
        NetReply::Failed { errno, reason } => (s, after_failure(s.step, s.at, errno, reason@)),
        _ => match (s.step, s.at, reply) {
            (LinkStepView::CreateTap { tap }, NetOp::OpenTun, _) => (
                LinkState { at: NetOp::AttachTap, ..s },
                NetActionView::AttachTap { name: tap },
            ),
            (LinkStepView::CreateTap { .. }, NetOp::AttachTap, _) => (
                LinkState { at: NetOp::PersistTap, ..s },
                NetActionView::PersistTap(true),
            ),
            (LinkStepView::DeleteTap { tap }, NetOp::OpenTun, _) => (
                LinkState { at: NetOp::AttachTap, ..s },
                NetActionView::AttachTap { name: tap },
            ),
            (LinkStepView::DeleteTap { .. }, NetOp::AttachTap, _) => (
                LinkState { at: NetOp::PersistTap, ..s },
                NetActionView::PersistTap(false),
            ),
            (LinkStepView::Up { link }, NetOp::Socket, _) => (
                LinkState { at: NetOp::GetFlags, ..s },
                NetActionView::GetFlags { name: link },
            ),
            (LinkStepView::Up { link }, NetOp::GetFlags, NetReply::Flags(f)) => (
                LinkState { at: NetOp::SetFlags, ..s },
                NetActionView::SetFlags { name: link, flags: f | IFF_UP },
            ),
            (LinkStepView::Down { link }, NetOp::Socket, _) => (
                LinkState { at: NetOp::GetFlags, ..s },
                NetActionView::GetFlags { name: link },
            ),
            (LinkStepView::Down { link }, NetOp::GetFlags, NetReply::Flags(f)) => (
                LinkState { at: NetOp::SetFlags, ..s },
                NetActionView::SetFlags { name: link, flags: f & !IFF_UP },
            ),
            (LinkStepView::CreateBridge { bridge }, NetOp::Socket, _) => (
                LinkState { at: NetOp::CreateBridge, ..s },
                NetActionView::CreateBridge { name: bridge },
            ),
            (LinkStepView::AddToBridge { tap, .. }, NetOp::Socket, _) => (
                LinkState { at: NetOp::Index, ..s },
                NetActionView::GetIndex { name: tap },
            ),
            (LinkStepView::AddToBridge { bridge, .. }, NetOp::Index, NetReply::Index(i)) => (
                LinkState { at: NetOp::AddToBridge, ..s },
                NetActionView::AddToBridge { bridge, index: i },
            ),
            (LinkStepView::RemoveFromBridge { tap, .. }, NetOp::Socket, _) => (
                LinkState { at: NetOp::Index, ..s },
                NetActionView::GetIndex { name: tap },
            ),
            (LinkStepView::RemoveFromBridge { bridge, .. }, NetOp::Index, NetReply::Index(i)) => (
                LinkState { at: NetOp::RemoveFromBridge, ..s },
                NetActionView::RemoveFromBridge { bridge, index: i },
            ),
            (LinkStepView::AddAddress { link, .. }, NetOp::Socket, _) => (
                LinkState { at: NetOp::SetAddress, ..s },
                NetActionView::SetAddress { name: link, ip: s.ip },
            ),
            (LinkStepView::AddAddress { link, .. }, NetOp::SetAddress, _) => (
                LinkState { at: NetOp::SetNetmask, ..s },
                NetActionView::SetNetmask { name: link, mask: s.mask },
            ),
            _ => (s, NetActionView::Success),
        },
    }
}

/// A change of an interface that is being carried out.
#[derive(Debug)]
pub struct LinkWork {
    step: LinkStep,
    at: NetOp,
    ip: Ipv4,
    mask: Ipv4,
}

impl View for LinkWork {
    type V = LinkState;

    closed spec fn view(&self) -> LinkState {
        LinkState { step: self.step@, at: self.at, ip: self.ip, mask: self.mask }
    }
}

/// The addresses that a change sets; a change that sets none is given zeros.
pub open spec fn addresses_fit(s: LinkState) -> bool {
    match s.step {
        LinkStepView::AddAddress { cidr, .. } => parsed_cidr(cidr) matches Some(q) && s.ip == q.0
            && s.mask.value() == mask_value(q.1),
        _ => true,
    }
}

impl LinkWork {
    /// Begins a change, with the first request. An address that cannot be read
    /// is an error before anything is asked of the kernel.
    pub fn begin(step: LinkStep) -> (r: Result<(LinkWork, NetAction), CofferError>)
        ensures
            match step@ {
                LinkStepView::AddAddress { cidr, .. } => r is Ok <==> parsed_cidr(cidr) is Some,
                _ => r is Ok,
            },
            r matches Ok(p) ==> {
                &&& p.0@.step == step@
                &&& p.0@.at == first_op(step@)
                &&& addresses_fit(p.0@)
                &&& p.1@ == if first_op(step@) == NetOp::OpenTun {
                    NetActionView::OpenTun
                } else {
                    NetActionView::OpenSocket
                }
            },
            r matches Err(e) ==> (step@ matches LinkStepView::AddAddress { cidr, .. } && e@
                == ErrorView::Network("Invalid CIDR: "@ + cidr)),
    {
        let none = Ipv4 { a: 0, b: 0, c: 0, d: 0 };
        let (ip, mask) = match &step {
            LinkStep::AddAddress { link: _, cidr } => match parse_cidr(cidr.as_str()) {
                Some(p) => p,
                None => {
                    return Err(CofferError::Network(cat2("Invalid CIDR: ", cidr.as_str())));
                },
            },
            _ => (none, none),
        };
        let tun = match &step {
            LinkStep::CreateTap { tap: _ } => true,
            LinkStep::DeleteTap { tap: _ } => true,
            _ => false,
        };
        if tun {
            Ok((LinkWork { step, at: NetOp::OpenTun, ip, mask }, NetAction::OpenTun))
        } else {
            Ok((LinkWork { step, at: NetOp::Socket, ip, mask }, NetAction::OpenSocket))
        }
    }

    fn failed(&self, errno: Option<i32>, reason: &str) -> (r: NetAction)
        ensures
            r@ == after_failure(self@.step, self@.at, errno, reason@),
    {
        let name = match &self.step {
            LinkStep::CreateBridge { bridge } => bridge,
            LinkStep::AddAddress { link, cidr: _ } => link,
            LinkStep::CreateTap { tap } => tap,
            LinkStep::DeleteTap { tap: _ } => {
                return NetAction::Finish(Ok(()));
            },
            LinkStep::Up { link } => link,
            LinkStep::Down { link } => link,
            LinkStep::AddToBridge { tap, bridge: _ } => tap,
            LinkStep::RemoveFromBridge { tap, bridge: _ } => tap,
        };
        NetAction::Finish(op_failed(self.at, name.as_str(), errno, reason))
    }

    /// Takes the answer to the last request, and makes the next one.
    pub fn advance(&mut self, reply: NetReply) -> (r: NetAction)
        ensures
            final(self)@ == link_next(old(self)@, reply).0,
            r@ == link_next(old(self)@, reply).1,
    {
        match reply {
            NetReply::Failed { errno, reason } => self.failed(errno, reason.as_str()),
            other => {
                let (at, action) = match (&self.step, self.at, other) {
                    (LinkStep::CreateTap { tap }, NetOp::OpenTun, _) => (
                        NetOp::AttachTap,
                        NetAction::AttachTap { name: tap.clone() },
                    ),
                    (LinkStep::CreateTap { tap: _ }, NetOp::AttachTap, _) => (
                        NetOp::PersistTap,
                        NetAction::PersistTap(true),
                    ),
                    (LinkStep::DeleteTap { tap }, NetOp::OpenTun, _) => (
                        NetOp::AttachTap,
                        NetAction::AttachTap { name: tap.clone() },
                    ),
                    (LinkStep::DeleteTap { tap: _ }, NetOp::AttachTap, _) => (
                        NetOp::PersistTap,
                        NetAction::PersistTap(false),
                    ),
                    (LinkStep::Up { link }, NetOp::Socket, _) => (
                        NetOp::GetFlags,
                        NetAction::GetFlags { name: link.clone() },
                    ),
                    (LinkStep::Up { link }, NetOp::GetFlags, NetReply::Flags(f)) => (
                        NetOp::SetFlags,
                        NetAction::SetFlags { name: link.clone(), flags: flags_up(f) },
                    ),
                    (LinkStep::Down { link }, NetOp::Socket, _) => (
                        NetOp::GetFlags,
                        NetAction::GetFlags { name: link.clone() },
                    ),
                    (LinkStep::Down { link }, NetOp::GetFlags, NetReply::Flags(f)) => (
                        NetOp::SetFlags,
                        NetAction::SetFlags { name: link.clone(), flags: flags_down(f) },
                    ),
                    (LinkStep::CreateBridge { bridge }, NetOp::Socket, _) => (
                        NetOp::CreateBridge,
                        NetAction::CreateBridge { name: bridge.clone() },
                    ),
                    (LinkStep::AddToBridge { tap, bridge: _ }, NetOp::Socket, _) => (
                        NetOp::Index,
                        NetAction::GetIndex { name: tap.clone() },
                    ),
                    (
                        LinkStep::AddToBridge { tap: _, bridge },
                        NetOp::Index,
                        NetReply::Index(i),
                    ) => (
                        NetOp::AddToBridge,
                        NetAction::AddToBridge { bridge: bridge.clone(), index: i },
                    ),
                    (LinkStep::RemoveFromBridge { tap, bridge: _ }, NetOp::Socket, _) => (
                        NetOp::Index,
                        NetAction::GetIndex { name: tap.clone() },
                    ),
                    (
                        LinkStep::RemoveFromBridge { tap: _, bridge },
                        NetOp::Index,
                        NetReply::Index(i),
                    ) => (
                        NetOp::RemoveFromBridge,
                        NetAction::RemoveFromBridge { bridge: bridge.clone(), index: i },
                    ),
                    (LinkStep::AddAddress { link, cidr: _ }, NetOp::Socket, _) => (
                        NetOp::SetAddress,
                        NetAction::SetAddress { name: link.clone(), ip: self.ip },
                    ),
                    (LinkStep::AddAddress { link, cidr: _ }, NetOp::SetAddress, _) => (
                        NetOp::SetNetmask,
                        NetAction::SetNetmask { name: link.clone(), mask: self.mask },
                    ),
                    _ => (self.at, NetAction::Finish(Ok(()))),
                };
                self.at = at;
                action
            },
        }
    }
}

// ---------------------------------------------------------------------
// Laws
// ---------------------------------------------------------------------

/// How many requests of a change lie before one.
pub open spec fn op_rank(at: NetOp) -> int {
    match at {
        NetOp::Socket => 0,
        NetOp::OpenTun => 0,
        NetOp::AttachTap => 1,
        NetOp::PersistTap => 2,
        NetOp::GetFlags => 1,
        NetOp::SetFlags => 2,
        NetOp::CreateBridge => 1,
        NetOp::Index => 1,
        NetOp::AddToBridge => 2,
        NetOp::RemoveFromBridge => 2,
        NetOp::SetAddress => 1,
        NetOp::SetNetmask => 2,
    }
}

/// A change comes to its end after three requests at most: each answer ends it
/// or leads one request further.
pub proof fn law_link_work_ends(s: LinkState, reply: NetReply)
    ensures
        link_next(s, reply).1 is Success || link_next(s, reply).1 is Failure || op_rank(
            link_next(s, reply).0.at,
        ) == op_rank(s.at) + 1,
        link_next(s, reply).0.step == s.step,
        op_rank(s.at) <= 2,
{
}

/// Removing a TAP device never comes to an error.
pub proof fn law_delete_never_fails(s: LinkState, reply: NetReply)
    requires
        s.step is DeleteTap,
    ensures
        !(link_next(s, reply).1 is Failure),
{
}

// ---------------------------------------------------------------------
// What the requests do
// ---------------------------------------------------------------------

/// The interfaces of the kernel, as far as requests change them.
pub struct Kernel {
    /// The TAP devices that last.
    pub taps: Set<Text>,
    /// The TAP device that is attached.
    pub attached: Option<Text>,
    pub flags: Map<Text, i16>,
    pub index: Map<Text, i32>,
    pub bridges: Set<Text>,
    /// The devices on bridges, each by its bridge and its index.
    pub ports: Set<(Text, i32)>,
    pub addresses: Map<Text, Ipv4>,
    pub masks: Map<Text, Ipv4>,
}

/// The kernel after a request that it has granted.
pub open spec fn granted(k: Kernel, a: NetActionView) -> Kernel {
    match a {
        NetActionView::AttachTap { name } => Kernel { attached: Some(name), ..k },
        NetActionView::PersistTap(on) => match k.attached {
            Some(name) => Kernel {
                taps: if on {
                    k.taps.insert(name)
                } else {
                    k.taps.remove(name)
                },
                ..k
            },
            None => k,
        },
        NetActionView::SetFlags { name, flags } => Kernel { flags: k.flags.insert(name, flags), ..k },
        NetActionView::CreateBridge { name } => Kernel { bridges: k.bridges.insert(name), ..k },
        NetActionView::AddToBridge { bridge, index } => Kernel {
            ports: k.ports.insert((bridge, index)),
            ..k
        },
        NetActionView::RemoveFromBridge { bridge, index } => Kernel {
            ports: k.ports.remove((bridge, index)),
            ..k
        },
        NetActionView::SetAddress { name, ip } => Kernel {
            addresses: k.addresses.insert(name, ip),
            ..k
        },
        NetActionView::SetNetmask { name, mask } => Kernel { masks: k.masks.insert(name, mask), ..k },
        _ => k,
    }
}

/// Whether an answer is what the kernel says to a request that it has granted.
pub open spec fn truly_answers(k: Kernel, a: NetActionView, reply: NetReply) -> bool {
    match a {
        NetActionView::GetFlags { name } => reply == NetReply::Flags(k.flags[name]),
        NetActionView::GetIndex { name } => reply == NetReply::Index(k.index[name]),
        _ => reply is Done,
    }
}

/// What a change makes of the kernel.
pub open spec fn changed(k: Kernel, end: Kernel, step: LinkStepView) -> bool {
    match step {
        LinkStepView::CreateTap { tap } => end.taps == k.taps.insert(tap) && end == (Kernel {
            taps: end.taps,
            attached: end.attached,
            ..k
        }),
        LinkStepView::DeleteTap { tap } => end.taps == k.taps.remove(tap) && end == (Kernel {
            taps: end.taps,
            attached: end.attached,
            ..k
        }),
        LinkStepView::Up { link } => end == (Kernel {
            flags: k.flags.insert(link, k.flags[link] | 1),
            ..k
        }),
        LinkStepView::Down { link } => end == (Kernel {
            flags: k.flags.insert(link, k.flags[link] & !1),
            ..k
        }),
        LinkStepView::CreateBridge { bridge } => end == (Kernel {
            bridges: k.bridges.insert(bridge),
            ..k
        }),
        LinkStepView::AddToBridge { tap, bridge } => end == (Kernel {
            ports: k.ports.insert((bridge, k.index[tap])),
            ..k
        }),
        LinkStepView::RemoveFromBridge { tap, bridge } => end == (Kernel {
            ports: k.ports.remove((bridge, k.index[tap])),
            ..k
        }),
        LinkStepView::AddAddress { link, .. } => end == (Kernel {
            addresses: k.addresses.insert(link, end.addresses[link]),
            masks: k.masks.insert(link, end.masks[link]),
            ..k
        }),
    }
}

/// A change of an interface whose requests are all granted makes exactly that
/// change, and then tells of its success: a TAP device lasts or is gone, a link
/// is up or down with its other flags as they were, a device is on the bridge or
/// off it, and a link has the address and the mask of its network.
pub proof fn law_change_is_made(
    step: LinkStep,
    begun: Result<(LinkWork, NetAction), CofferError>,
    w1: &mut LinkWork,
    r1: NetReply,
    a1: NetAction,
    w2: &mut LinkWork,
    r2: NetReply,
    a2: NetAction,
    w3: &mut LinkWork,
    r3: NetReply,
    a3: NetAction,
    k: Kernel,
    cidr: &str,
    network: Option<(Ipv4, Ipv4)>,
)
    requires
        call_ensures(LinkWork::begin, (step,), begun),
        begun is Ok,
        *old(w1) == begun->Ok_0.0,
        truly_answers(k, begun->Ok_0.1@, r1),
        call_ensures(LinkWork::advance, (w1, r1), a1),
        *old(w2) == *final(w1),
        truly_answers(granted(k, a1@), a1@, r2),
        call_ensures(LinkWork::advance, (w2, r2), a2),
        *old(w3) == *final(w2),
        truly_answers(granted(granted(k, a1@), a2@), a2@, r3),
        call_ensures(LinkWork::advance, (w3, r3), a3),
        call_ensures(parse_cidr, (cidr,), network),
        step@ matches LinkStepView::AddAddress { cidr: c, .. } ==> c == cidr@,
    ensures
        a3@ is Success,
        ({
            let end = granted(granted(k, a1@), a2@);
            &&& changed(k, end, step@)
            &&& step@ matches LinkStepView::AddAddress { link, .. } ==> network is Some
                && end.addresses[link] == network->Some_0.0 && end.masks[link]
                == network->Some_0.1
        }),
{
    if let LinkStepView::AddAddress { link, .. } = step@ {
        crate::net::raw::law_ipv4_value_injective(begun->Ok_0.0@.mask, network->Some_0.1);
    }
}

/// A request that the kernel refuses ends the change: with success where what was
/// asked for is the case anyhow, else with an error.
pub proof fn law_refusal_ends_the_change(
    w: &mut LinkWork,
    errno: Option<i32>,
    reason: String,
    a: NetAction,
)
    requires
        call_ensures(LinkWork::advance, (w, NetReply::Failed { errno, reason }), a),
    ensures
        a is Finish,
        old(w)@.step is DeleteTap ==> a@ is Success,
        old(w)@.step is Up && old(w)@.at == NetOp::SetFlags ==> a@ is Failure,
        old(w)@.step is CreateBridge && old(w)@.at == NetOp::CreateBridge ==> (a@ is Success
            <==> errno == Some(17i32)),
        old(w)@.step is AddToBridge && old(w)@.at == NetOp::AddToBridge ==> (a@ is Success
            <==> errno == Some(17i32) || errno == Some(16i32)),
        old(w)@.step is RemoveFromBridge && old(w)@.at == NetOp::RemoveFromBridge ==> (a@ is Success
            <==> errno == Some(6i32)),
{
    assert(a@ is Success || a@ is Failure);
}

/// A request is seen as what it is.
pub proof fn law_requests_are_seen_as_they_are(
    name: String,
    flags: i16,
    index: i32,
    ip: Ipv4,
    on: bool,
    e: CofferError,
)
    ensures
        NetAction::OpenTun@ is OpenTun && NetAction::OpenSocket@ is OpenSocket,
        (NetAction::AttachTap { name })@ == (NetActionView::AttachTap { name: name@ }),
        NetAction::PersistTap(on)@ == NetActionView::PersistTap(on),
        (NetAction::GetFlags { name })@ == (NetActionView::GetFlags { name: name@ }),
        (NetAction::SetFlags { name, flags })@ == (NetActionView::SetFlags { name: name@, flags }),
        (NetAction::CreateBridge { name })@ == (NetActionView::CreateBridge { name: name@ }),
        (NetAction::GetIndex { name })@ == (NetActionView::GetIndex { name: name@ }),
        (NetAction::AddToBridge { bridge: name, index })@ == (NetActionView::AddToBridge {
            bridge: name@,
            index,
        }),
        (NetAction::RemoveFromBridge { bridge: name, index })@ == (NetActionView::RemoveFromBridge {
            bridge: name@,
            index,
        }),
        (NetAction::SetAddress { name, ip })@ == (NetActionView::SetAddress { name: name@, ip }),
        (NetAction::SetNetmask { name, mask: ip })@ == (NetActionView::SetNetmask {
            name: name@,
            mask: ip,
        }),
        NetAction::Finish(Ok(()))@ is Success,
        NetAction::Finish(Err(e))@ == NetActionView::Failure(e@),
{
}

} // verus!
