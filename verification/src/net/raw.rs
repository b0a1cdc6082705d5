//! Requests to the kernel about network interfaces: their bytes, and what their
//! failures mean.

use vstd::arithmetic::power2::{lemma_pow2_pos, lemma_pow2_strictly_increases, pow2};
use vstd::bits::lemma_u64_shl_is_mul;
use vstd::prelude::*;
use vstd::utf8::encode_utf8;

use crate::error::{CofferError, ErrorView};
use crate::numeric::{all_digits, dec, digits_value, lemma_dec_digits, parse_range, parsed};
use crate::text::{cat2, cat3, cat4, chars_of, first_index, Text};

verus! {

broadcast use vstd::string::group_string_axioms;

/// The size of an interface name in a request, with its final zero.
pub const IFNAMSIZ: usize = 16;

/// The size of a request.
pub const IFREQ_SIZE: usize = 40;

// Linux request numbers.
pub const TUNSETIFF: u64 = 0x4004_54ca;
pub const TUNSETPERSIST: u64 = 0x4004_54cb;
pub const SIOCBRADDBR: u64 = 0x0000_89a0;
pub const SIOCBRADDIF: u64 = 0x0000_89a2;
pub const SIOCBRDELIF: u64 = 0x0000_89a3;
pub const SIOCGIFFLAGS: u64 = 0x0000_8913;
pub const SIOCSIFFLAGS: u64 = 0x0000_8914;
pub const SIOCGIFINDEX: u64 = 0x0000_8933;
pub const SIOCSIFADDR: u64 = 0x0000_8916;
pub const SIOCSIFNETMASK: u64 = 0x0000_891c;

/// The flags of a TAP device without packet information.
pub const TAP_FLAGS: i16 = 0x1002;

/// The flag of an interface that is up.
pub const IFF_UP: i16 = 1;

pub const EEXIST: i32 = 17;
pub const EBUSY: i32 = 16;
pub const ENXIO: i32 = 6;

// ---------------------------------------------------------------------
// Requests
// ---------------------------------------------------------------------

pub open spec fn least(a: int, b: int) -> int {
    if a <= b {
        a
    } else {
        b
    }
}

/// The bytes of a request for an interface: its name, cut so that a zero follows
/// it, then the payload, then zeros.
pub open spec fn request_image(name: Text, payload: Seq<u8>) -> Seq<u8> {
    let bytes = encode_utf8(name);
    Seq::new(
        40,
        |i: int|
            if i < least(bytes.len() as int, 15) {
                bytes[i]
            } else if 16 <= i < 16 + payload.len() {
                payload[i - 16]
            } else {
                0u8
            },
    )
}

/// A request for an interface, without a payload.
pub fn ifreq_with_name(name: &str) -> (r: [u8; 40])
    ensures
        r@ == request_image(name@, seq![]),
{
    let mut buf = [0u8; 40];
    let bytes = name.as_bytes();
    let len: usize = if bytes.len() < IFNAMSIZ - 1 {
        bytes.len()
    } else {
        IFNAMSIZ - 1
    };
    let mut i: usize = 0;
    while i < len
        invariant
            i <= len <= 15,
            len <= bytes@.len(),
            bytes@ == encode_utf8(name@),
            buf@.len() == 40,
            forall|j: int| 0 <= j < i ==> buf@[j] == bytes@[j],
            forall|j: int| i <= j < 40 ==> buf@[j] == 0u8,
        decreases len - i,
    {
        buf[i] = bytes[i];
        i = i + 1;
    }
    assert(buf@ =~= request_image(name@, seq![]));
    buf
}

/// A request for an interface, with a payload.
pub fn ifreq_with_payload(name: &str, payload: &[u8]) -> (r: [u8; 40])
    requires
        payload@.len() <= 24,
    ensures
        r@ == request_image(name@, payload@),
{
    let mut buf = ifreq_with_name(name);
    let len: usize = payload.len();
    let mut i: usize = 0;
    while i < len
        invariant
            i <= len <= 24,
            len == payload@.len(),
            buf@.len() == 40,
            forall|j: int| 0 <= j < 16 ==> buf@[j] == request_image(name@, seq![])[j],
            forall|j: int| 16 <= j < 16 + i ==> buf@[j] == payload@[j - 16],
            forall|j: int| 16 + i <= j < 40 ==> buf@[j] == 0u8,
        decreases len - i,
    {
        buf[16 + i] = payload[i];
        i = i + 1;
    }
    assert(buf@ =~= request_image(name@, payload@));
    buf
}

/// The name that a request carries always ends with a zero inside its field.
pub proof fn law_name_is_terminated(name: Text, payload: Seq<u8>)
    ensures
        request_image(name, payload).len() == 40,
        request_image(name, payload)[15] == 0u8,
{
}

/// Two names that differ within what a request holds give different requests.
pub proof fn law_names_kept_apart(a: Text, b: Text, payload: Seq<u8>)
    requires
        request_image(a, payload) == request_image(b, payload),
        encode_utf8(a).len() <= 15,
        encode_utf8(b).len() <= 15,
        !encode_utf8(a).contains(0u8),
        !encode_utf8(b).contains(0u8),
    ensures
        a == b,
{
    let x = encode_utf8(a);
    let y = encode_utf8(b);
    let u = request_image(a, payload);
    let v = request_image(b, payload);
    if x.len() < y.len() {
        let n = x.len() as int;
        assert(u[n] == 0u8);
        assert(v[n] == y[n]);
        assert(y.contains(y[n]));
    } else if y.len() < x.len() {
        let n = y.len() as int;
        assert(v[n] == 0u8);
        assert(u[n] == x[n]);
        assert(x.contains(x[n]));
    }
    assert(x.len() == y.len());
    assert forall|i: int| 0 <= i < x.len() implies x[i] == y[i] by {
        assert(u[i] == x[i]);
        assert(v[i] == y[i]);
    }
    assert(x =~= y);
    vstd::utf8::encode_utf8_decode_utf8(a);
    vstd::utf8::encode_utf8_decode_utf8(b);
}

// ---------------------------------------------------------------------
// Link flags
// ---------------------------------------------------------------------

/// The flags of an interface, with the flag that it is up.
pub fn flags_up(flags: i16) -> (r: i16)
    ensures
        r == flags | IFF_UP,
        r & IFF_UP == IFF_UP,
        r & !IFF_UP == flags & !IFF_UP,
{
    assert((flags | 1i16) & 1i16 == 1i16) by (bit_vector);
    assert((flags | 1i16) & !1i16 == flags & !1i16) by (bit_vector);
    flags | IFF_UP
}

/// The flags of an interface, without the flag that it is up.
pub fn flags_down(flags: i16) -> (r: i16)
    ensures
        r == flags & !IFF_UP,
        r & IFF_UP == 0,
        r & !IFF_UP == flags & !IFF_UP,
{
    assert((flags & !1i16) & 1i16 == 0i16) by (bit_vector);
    assert((flags & !1i16) & !1i16 == flags & !1i16) by (bit_vector);
    flags & !IFF_UP
}

// ---------------------------------------------------------------------
// Failures
// ---------------------------------------------------------------------

/// A step in which the kernel is asked for something.
#[derive(Debug, Clone, Copy, PartialEq, Eq, Structural)]
pub enum NetOp {
    Socket,
    OpenTun,
    AttachTap,
    PersistTap,
    GetFlags,
    SetFlags,
    CreateBridge,
    Index,
    AddToBridge,
    RemoveFromBridge,
    SetAddress,
    SetNetmask,
}

/// The error, if any, that a failed step on the interface `name` is reported
/// with. Some failures mean that what was asked for is already the case.
pub open spec fn op_error(op: NetOp, name: Text, errno: Option<i32>, reason: Text) -> Option<
    ErrorView,
> {
    match op {
        NetOp::Socket => Some(ErrorView::Network("socket(AF_INET, SOCK_DGRAM): "@ + reason)),
        NetOp::OpenTun => Some(ErrorView::Network("Failed to open /dev/net/tun: "@ + reason)),
        NetOp::AttachTap => if errno == Some(EEXIST) || errno == Some(EBUSY) {
            Some(
                ErrorView::Network(
                    "TAP "@ + name
                        + " already exists (held by another process). Consider killing stale Firecracker processes."@,
                ),
            )
        } else {
            Some(ErrorView::Network("ioctl(TUNSETIFF): "@ + reason))
        },
        NetOp::PersistTap => Some(ErrorView::Network("ioctl(TUNSETPERSIST): "@ + reason)),
        NetOp::GetFlags => Some(ErrorView::Network("ioctl(SIOCGIFFLAGS): "@ + reason)),
        NetOp::SetFlags => Some(ErrorView::Network("ioctl(SIOCSIFFLAGS): "@ + reason)),
        NetOp::CreateBridge => if errno == Some(EEXIST) {
            None
        } else {
            Some(ErrorView::Network("ioctl(SIOCBRADDBR): "@ + reason))
        },
        NetOp::Index => Some(
            ErrorView::Network("ioctl(SIOCGIFINDEX, "@ + name + "): "@ + reason),
        ),
        NetOp::AddToBridge => if errno == Some(EEXIST) || errno == Some(EBUSY) {
            None
        } else {
            Some(ErrorView::Network("ioctl(SIOCBRADDIF): "@ + reason))
        },
        NetOp::RemoveFromBridge => if errno == Some(ENXIO) {
            None
        } else {
            Some(ErrorView::Network("ioctl(SIOCBRDELIF): "@ + reason))
        },
        NetOp::SetAddress => Some(ErrorView::Network("ioctl(SIOCSIFADDR): "@ + reason)),
        NetOp::SetNetmask => Some(ErrorView::Network("ioctl(SIOCSIFNETMASK): "@ + reason)),
    }
}

fn network_error(what: &str, reason: &str) -> (r: Result<(), CofferError>)
    ensures
        r matches Err(e) && e@ == ErrorView::Network(what@ + reason@),
{
    Err(CofferError::Network(cat2(what, reason)))
}

/// Whether `errno` is `code`.
fn errno_is(errno: Option<i32>, code: i32) -> (r: bool)
    ensures
        r == (errno == Some(code)),
{
    match errno {
        Some(e) => e == code,
        None => false,
    }
}

/// What a failed step comes to: nothing, where what was asked for is already the
/// case, else an error.
pub fn op_failed(op: NetOp, name: &str, errno: Option<i32>, reason: &str) -> (r: Result<
    (),
    CofferError,
>)
    ensures
        match r {
            Ok(_) => op_error(op, name@, errno, reason@) is None,
            Err(e) => op_error(op, name@, errno, reason@) == Some(e@),
        },
{
    match op {
        NetOp::Socket => network_error("socket(AF_INET, SOCK_DGRAM): ", reason),
        NetOp::OpenTun => network_error("Failed to open /dev/net/tun: ", reason),
        NetOp::AttachTap => {
            if errno_is(errno, EEXIST) || errno_is(errno, EBUSY) {
                Err(
                    CofferError::Network(
                        cat3(
                            "TAP ",
                            name,
                            " already exists (held by another process). Consider killing stale Firecracker processes.",
                        ),
                    ),
                )
            } else {
                network_error("ioctl(TUNSETIFF): ", reason)
            }
        },
        NetOp::PersistTap => network_error("ioctl(TUNSETPERSIST): ", reason),
        NetOp::GetFlags => network_error("ioctl(SIOCGIFFLAGS): ", reason),
        NetOp::SetFlags => network_error("ioctl(SIOCSIFFLAGS): ", reason),
        NetOp::CreateBridge => {
            if errno_is(errno, EEXIST) {
                Ok(())
            } else {
                network_error("ioctl(SIOCBRADDBR): ", reason)
            }
        },
        NetOp::Index => Err(
            CofferError::Network(cat4("ioctl(SIOCGIFINDEX, ", name, "): ", reason)),
        ),
        NetOp::AddToBridge => {
            if errno_is(errno, EEXIST) || errno_is(errno, EBUSY) {
                Ok(())
            } else {
                network_error("ioctl(SIOCBRADDIF): ", reason)
            }
        },
        NetOp::RemoveFromBridge => {
            if errno_is(errno, ENXIO) {
                Ok(())
            } else {
                network_error("ioctl(SIOCBRDELIF): ", reason)
            }
        },
        NetOp::SetAddress => network_error("ioctl(SIOCSIFADDR): ", reason),
        NetOp::SetNetmask => network_error("ioctl(SIOCSIFNETMASK): ", reason),
    }
}

// ---------------------------------------------------------------------
// Addresses
// ---------------------------------------------------------------------

/// An IPv4 address.
#[derive(Debug, Clone, Copy, PartialEq, Eq, Structural)]
pub struct Ipv4 {
    pub a: u8,
    pub b: u8,
    pub c: u8,
    pub d: u8,
}

impl Ipv4 {
    /// The address as a number.
    pub open spec fn value(self) -> int {
        ((self.a * 256 + self.b) * 256 + self.c) * 256 + self.d
    }

    /// The address that a number stands for.
    pub fn from_value(v: u32) -> (r: Ipv4)
        ensures
            r.value() == v,
    {
        Ipv4 {
            a: (v / 0x100_0000) as u8,
            b: (v / 0x1_0000 % 256) as u8,
            c: (v / 256 % 256) as u8,
            d: (v % 256) as u8,
        }
    }
}

/// One part of a dotted address: one to three digits without a needless zero
/// before them, of at most 255.
pub open spec fn octet(s: Text) -> Option<u8> {
    if all_digits(s, 10) && s.len() <= 3 && (s.len() == 1 || s[0] != '0') && digits_value(s, 10)
        <= 255 {
        Some(digits_value(s, 10) as u8)
    } else {
        None
    }
}

/// The parts of `s` between the characters `c`.
pub open spec fn split_at_char(s: Text, c: char) -> Seq<Text>
    decreases s.len(),
{
    let i = first_index(s, c);
    proof {
        crate::text::lemma_first_index(s, c);
    }
    if i == s.len() {
        seq![s]
    } else {
        seq![s.take(i)] + split_at_char(s.skip(i + 1), c)
    }
}

/// The address that a text stands for: four parts with dots between them.
pub open spec fn parsed_ipv4(s: Text) -> Option<Ipv4> {
    let parts = split_at_char(s, '.');
    if parts.len() == 4 {
        match (octet(parts[0]), octet(parts[1]), octet(parts[2]), octet(parts[3])) {
            (Some(a), Some(b), Some(c), Some(d)) => Some(Ipv4 { a, b, c, d }),
            _ => None,
        }
    } else {
        None
    }
}

/// The number of the network mask of a prefix: ones for the prefix, then zeros.
pub open spec fn mask_value(prefix: nat) -> int {
    pow2(32) - pow2((32 - prefix) as nat)
}

/// What a text in CIDR notation stands for: an address and the length of a
/// prefix of at most 32 bits.
pub open spec fn parsed_cidr(s: Text) -> Option<(Ipv4, nat)> {
    let parts = split_at_char(s, '/');
    if parts.len() == 2 {
        match (parsed_ipv4(parts[0]), parsed(parts[1], 10, u32::MAX as nat)) {
            (Some(ip), Some(prefix)) => if prefix <= 32 {
                Some((ip, prefix))
            } else {
                None
            },
            _ => None,
        }
    } else {
        None
    }
}

/// The bounds of the parts of `cs[from..to]` between the characters `c`.
fn split_bounds(cs: &Vec<char>, from: usize, to: usize, c: char) -> (r: Vec<(usize, usize)>)
    requires
        from <= to <= cs@.len(),
    ensures
        r@.len() == split_at_char(cs@.subrange(from as int, to as int), c).len(),
        forall|k: int|
            0 <= k < r@.len() ==> {
                &&& from <= (#[trigger] r@[k]).0 <= r@[k].1 <= to
                &&& cs@.subrange(r@[k].0 as int, r@[k].1 as int) == split_at_char(
                    cs@.subrange(from as int, to as int),
                    c,
                )[k]
            },
{
    let ghost whole = split_at_char(cs@.subrange(from as int, to as int), c);
    let mut out: Vec<(usize, usize)> = Vec::new();
    let mut i: usize = from;
    loop
        invariant
            from <= i <= to <= cs@.len(),
                whole == split_at_char(cs@.subrange(from as int, to as int), c),
            whole.len() == out@.len() + split_at_char(cs@.subrange(i as int, to as int), c).len(),
            forall|k: int|
                0 <= k < split_at_char(cs@.subrange(i as int, to as int), c).len()
                    ==> #[trigger] split_at_char(cs@.subrange(i as int, to as int), c)[k]
                    == whole[out@.len() + k],
            forall|k: int|
                0 <= k < out@.len() ==> {
                    &&& from <= (#[trigger] out@[k]).0 <= out@[k].1 <= to
                    &&& cs@.subrange(out@[k].0 as int, out@[k].1 as int) == whole[k]
                },
        decreases to - i,
    {
        let ghost rest = cs@.subrange(i as int, to as int);
        let ghost parts = split_at_char(rest, c);
        let ghost n = out@.len() as int;
        let mut e: usize = i;
        while e < to && cs[e] != c
            invariant
                i <= e <= to <= cs@.len(),
                forall|j: int| i <= j < e ==> cs@[j] != c,
            decreases to - e,
        {
            e = e + 1;
        }
        proof {
            assert forall|j: int| 0 <= j < e - i implies rest[j] != c by {
                assert(rest[j] == cs@[i + j]);
            }
            crate::text::lemma_first_index_is(rest, c, e - i);
            assert(rest.take(e - i) =~= cs@.subrange(i as int, e as int));
            assert(parts[0] == whole[n + 0]);
        }
        out.push((i, e));
        if e == to {
            assert(rest.take(e - i) =~= rest);
            assert(parts.len() == 1);
            return out;
        }
        proof {
            let next = cs@.subrange(e + 1, to as int);
            assert(rest.skip(e - i + 1) =~= next);
            let tail = split_at_char(next, c);
            assert(parts == seq![rest.take(e - i)] + tail);
            assert forall|k: int| 0 <= k < tail.len() implies #[trigger] tail[k] == whole[n + 1
                + k] by {
                assert(parts[k + 1] == tail[k]);
                assert(parts[k + 1] == whole[n + (k + 1)]);
            }
        }
        i = e + 1;
    }
}

fn parse_octet(cs: &Vec<char>, from: usize, to: usize) -> (r: Option<u8>)
    requires
        from <= to <= cs@.len(),
    ensures
        r == octet(cs@.subrange(from as int, to as int)),
{
    let ghost s = cs@.subrange(from as int, to as int);
    if to - from == 0 || to - from > 3 {
        return None;
    }
    assert(s[0] == cs@[from as int]);
    if to - from > 1 && cs[from] == '0' {
        return None;
    }
    if cs[from] == '+' {
        return None;
    }
    match parse_range(cs, from, to, 10, 255) {
        Some(v) => Some(v as u8),
        None => None,
    }
}

fn parse_ipv4(cs: &Vec<char>, from: usize, to: usize) -> (r: Option<Ipv4>)
    requires
        from <= to <= cs@.len(),
    ensures
        r == parsed_ipv4(cs@.subrange(from as int, to as int)),
{
    let parts = split_bounds(cs, from, to, '.');
    if parts.len() != 4 {
        return None;
    }
    let a = match parse_octet(cs, parts[0].0, parts[0].1) {
        Some(v) => v,
        None => return None,
    };
    let b = match parse_octet(cs, parts[1].0, parts[1].1) {
        Some(v) => v,
        None => return None,
    };
    let c = match parse_octet(cs, parts[2].0, parts[2].1) {
        Some(v) => v,
        None => return None,
    };
    let d = match parse_octet(cs, parts[3].0, parts[3].1) {
        Some(v) => v,
        None => return None,
    };
    Some(Ipv4 { a, b, c, d })
}

/// The network mask of a prefix of at most 32 bits.
pub fn netmask(prefix: u32) -> (r: Ipv4)
    requires
        prefix <= 32,
    ensures
        r.value() == mask_value(prefix as nat),
{
    let k: u64 = (32 - prefix) as u64;
    proof {
        vstd::arithmetic::power2::lemma2_to64();
        lemma_pow2_pos(k as nat);
        if k < 32 {
            lemma_pow2_strictly_increases(k as nat, 32);
        }
        lemma_u64_shl_is_mul(1, k);
    }
    let v: u64 = 0x1_0000_0000u64 - (1u64 << k);
    Ipv4::from_value(v as u32)
}

/// The address and the network mask that a text in CIDR notation stands for.
pub fn parse_cidr(cidr: &str) -> (r: Option<(Ipv4, Ipv4)>)
    ensures
        match r {
            Some(p) => parsed_cidr(cidr@) matches Some(q) && p.0 == q.0 && p.1.value()
                == mask_value(q.1) && q.1 <= 32,
            None => parsed_cidr(cidr@) is None,
        },
{
    let cs = chars_of(cidr);
    let n: usize = cs.len();
    assert(cs@.subrange(0, n as int) =~= cidr@);
    let parts = split_bounds(&cs, 0, n, '/');
    if parts.len() != 2 {
        return None;
    }
    let ip = match parse_ipv4(&cs, parts[0].0, parts[0].1) {
        Some(v) => v,
        None => return None,
    };
    match parse_range(&cs, parts[1].0, parts[1].1, 10, u32::MAX as u64) {
        Some(prefix) => {
            if prefix > 32 {
                None
            } else {
                Some((ip, netmask(prefix as u32)))
            }
        },
        None => None,
    }
}

/// The bytes of a socket address without a port: the address family in the
/// machine's order, a zero port, the address, and zeros.
pub open spec fn sockaddr_image(family: Seq<u8>, ip: Ipv4) -> Seq<u8> {
    family + seq![0u8, 0, ip.a, ip.b, ip.c, ip.d, 0, 0, 0, 0, 0, 0, 0, 0]
}

/// The bytes of a socket address without a port; `family` is the address family
/// in the machine's order.
pub fn sockaddr_in_bytes(family: [u8; 2], ip: Ipv4) -> (r: [u8; 16])
    ensures
        r@ == sockaddr_image(family@, ip),
{
    let r = [
        family[0],
        family[1],
        0u8,
        0u8,
        ip.a,
        ip.b,
        ip.c,
        ip.d,
        0u8,
        0u8,
        0u8,
        0u8,
        0u8,
        0u8,
        0u8,
        0u8,
    ];
    assert(r@ =~= sockaddr_image(family@, ip));
    r
}

/// The request that gives the interface `name` an address, or a mask; `family` is
/// the address family in the machine's order.
pub fn address_request(name: &str, family: [u8; 2], ip: Ipv4) -> (r: [u8; 40])
    ensures
        r@ == request_image(name@, sockaddr_image(family@, ip)),
{
    let sin = sockaddr_in_bytes(family, ip);
    ifreq_with_payload(name, sin.as_slice())
}

/// The numbers of addresses tell them apart.
pub proof fn law_ipv4_value_injective(x: Ipv4, y: Ipv4)
    requires
        x.value() == y.value(),
    ensures
        x == y,
{
}

/// A longer prefix gives a larger mask; no prefix gives none, and a whole
/// address gives all ones.
pub proof fn law_masks_grow(p: nat, q: nat)
    requires
        p < q <= 32,
    ensures
        mask_value(p) < mask_value(q),
        mask_value(0) == 0,
        mask_value(32) == u32::MAX,
{
    vstd::arithmetic::power2::lemma2_to64();
    lemma_pow2_strictly_increases((32 - q) as nat, (32 - p) as nat);
}

/// A step that fails means nothing only where what was asked for is the case
/// anyhow: the bridge exists, the device is on a bridge, or it is on none. Every
/// other failure is an error, which names the reason or, where the device is held
/// by another process, the device.
pub proof fn law_failures(
    op: NetOp,
    name: &str,
    errno: Option<i32>,
    reason: &str,
    r: Result<(), CofferError>,
)
    requires
        call_ensures(op_failed, (op, name, errno, reason), r),
    ensures
        r is Ok <==> (op == NetOp::CreateBridge && errno == Some(17i32)) || (op
            == NetOp::AddToBridge && (errno == Some(17i32) || errno == Some(16i32))) || (op
            == NetOp::RemoveFromBridge && errno == Some(6i32)),
        r matches Err(e) ==> (e@ matches ErrorView::Network(m) && if op == NetOp::AttachTap && (errno
            == Some(17i32) || errno == Some(16i32)) {
            crate::text::occurs(m, name@)
        } else {
            reason@.is_suffix_of(m)
        }),
{
    if r is Err {
        let m = r->Err_0@->Network_0;
        if op == NetOp::AttachTap && (errno == Some(17i32) || errno == Some(16i32)) {
            let i = "TAP "@.len() as int;
            assert(m.subrange(i, i + name@.len()) =~= name@);
            assert(crate::text::occurs_at(m, name@, i));
        } else {
            assert(m.subrange(m.len() - reason@.len(), m.len() as int) =~= reason@);
        }
    }
}

/// A request that gives an interface an address holds the name from its start,
/// with a zero behind it, the family and the address at their places, and zeros
/// elsewhere.
pub proof fn law_address_request(name: &str, family: [u8; 2], ip: Ipv4, r: [u8; 40])
    requires
        call_ensures(address_request, (name, family, ip), r),
        encode_utf8(name@).len() <= 15,
    ensures
        r@.len() == 40,
        r@.take(encode_utf8(name@).len() as int) == encode_utf8(name@),
        forall|i: int| encode_utf8(name@).len() <= i < 16 ==> #[trigger] r@[i] == 0u8,
        r@[16] == family@[0] && r@[17] == family@[1],
        r@[18] == 0u8 && r@[19] == 0u8,
        r@[20] == ip.a && r@[21] == ip.b && r@[22] == ip.c && r@[23] == ip.d,
        forall|i: int| 24 <= i < 40 ==> #[trigger] r@[i] == 0u8,
{
    assert(r@.take(encode_utf8(name@).len() as int) =~= encode_utf8(name@));
}

/// The mask of a prefix is ones for the prefix, and zeros behind them.
pub proof fn law_mask_is_ones_then_zeros(prefix: u32, r: Ipv4)
    requires
        prefix <= 32,
        call_ensures(netmask, (prefix,), r),
    ensures
        r.value() == (pow2(prefix as nat) - 1) * pow2((32 - prefix) as nat),
{
    let p = prefix as nat;
    let k = (32 - prefix) as nat;
    vstd::arithmetic::power2::lemma_pow2_adds(p, k);
    assert((pow2(p) - 1) * pow2(k) == pow2(p) * pow2(k) - pow2(k)) by (nonlinear_arith);
}

proof fn lemma_split_first(x: Text, c: char, rest: Text)
    requires
        !x.contains(c),
    ensures
        split_at_char(x + seq![c] + rest, c) == seq![x] + split_at_char(rest, c),
        split_at_char(x, c) == seq![x],
{
    let s = x + seq![c] + rest;
    let n = x.len() as int;
    assert forall|j: int| 0 <= j < n implies s[j] != c && x[j] != c by {
        assert(s[j] == x[j]);
        assert(x.contains(x[j]));
    }
    assert(s[n] == c);
    crate::text::lemma_first_index_is(s, c, n);
    crate::text::lemma_first_index_is(x, c, n);
    assert(s.take(n) =~= x);
    assert(s.skip(n + 1) =~= rest);
}

proof fn lemma_digits_only(s: Text, c: char)
    requires
        all_digits(s, 10),
        c == '.' || c == '/',
    ensures
        !s.contains(c),
{
    if s.contains(c) {
        let i = choose|i: int| 0 <= i < s.len() && s[i] == c;
        assert(s[i] == c);
    }
}

proof fn lemma_octet(n: u8)
    ensures
        octet(dec(n as nat)) == Some(n),
        all_digits(dec(n as nat), 10),
{
    lemma_dec_digits(n as nat);
    reveal_with_fuel(dec, 4);
}

/// The text of an address: its four numbers with dots between them.
pub open spec fn dotted(ip: Ipv4) -> Text {
    dec(ip.a as nat) + seq!['.'] + (dec(ip.b as nat) + seq!['.'] + (dec(ip.c as nat) + seq!['.']
        + dec(ip.d as nat)))
}

proof fn lemma_no_slash(x: Text, y: Text)
    requires
        !x.contains('/'),
        !y.contains('/'),
    ensures
        !(x + seq!['.'] + y).contains('/'),
{
    let s = x + seq!['.'] + y;
    if s.contains('/') {
        let i = choose|i: int| 0 <= i < s.len() && s[i] == '/';
        if i < x.len() {
            assert(x[i] == '/');
        } else if i > x.len() {
            assert(y[i - x.len() - 1] == '/');
        }
    }
}

proof fn lemma_dotted(ip: Ipv4)
    ensures
        parsed_ipv4(dotted(ip)) == Some(ip),
        !dotted(ip).contains('/'),
{
    let a = dec(ip.a as nat);
    let b = dec(ip.b as nat);
    let c = dec(ip.c as nat);
    let d = dec(ip.d as nat);
    lemma_octet(ip.a);
    lemma_octet(ip.b);
    lemma_octet(ip.c);
    lemma_octet(ip.d);
    lemma_digits_only(a, '.');
    lemma_digits_only(b, '.');
    lemma_digits_only(c, '.');
    lemma_digits_only(d, '.');
    lemma_digits_only(a, '/');
    lemma_digits_only(b, '/');
    lemma_digits_only(c, '/');
    lemma_digits_only(d, '/');
    let cd = c + seq!['.'] + d;
    let bcd = b + seq!['.'] + cd;
    lemma_split_first(a, '.', bcd);
    lemma_split_first(b, '.', cd);
    lemma_split_first(c, '.', d);
    lemma_split_first(d, '.', seq![]);
    assert(split_at_char(dotted(ip), '.') =~= seq![a, b, c, d]);
    lemma_no_slash(c, d);
    lemma_no_slash(b, cd);
    lemma_no_slash(a, bcd);
}

/// A network that is written down with its address and the length of its prefix
/// is read as that address, with the mask of that prefix.
pub proof fn law_cidr_is_read(
    ip: Ipv4,
    prefix: u32,
    text: &str,
    r: Option<(Ipv4, Ipv4)>,
    mask: Ipv4,
)
    requires
        prefix <= 32,
        text@ == dotted(ip) + seq!['/'] + dec(prefix as nat),
        call_ensures(parse_cidr, (text,), r),
        call_ensures(netmask, (prefix,), mask),
    ensures
        r == Some((ip, mask)),
{
    let p = dec(prefix as nat);
    lemma_dotted(ip);
    lemma_dec_digits(prefix as nat);
    lemma_digits_only(p, '/');
    crate::numeric::law_parse_printed(prefix as nat, u32::MAX as nat);
    lemma_split_first(dotted(ip), '/', p);
    lemma_split_first(p, '/', seq![]);
    assert(split_at_char(text@, '/') =~= seq![dotted(ip), p]);
    assert(r is Some);
    law_ipv4_value_injective(r->Some_0.1, mask);
}

/// A network without the length of its prefix, or with one that is longer than an
/// address, cannot be read.
pub proof fn law_bad_cidr_is_refused(
    ip: Ipv4,
    prefix: nat,
    long: &str,
    r: Option<(Ipv4, Ipv4)>,
    bare: &str,
    q: Option<(Ipv4, Ipv4)>,
)
    requires
        prefix > 32,
        long@ == dotted(ip) + seq!['/'] + dec(prefix),
        call_ensures(parse_cidr, (long,), r),
        !bare@.contains('/'),
        call_ensures(parse_cidr, (bare,), q),
    ensures
        r is None,
        q is None,
{
    let p = dec(prefix);
    lemma_dotted(ip);
    lemma_dec_digits(prefix);
    lemma_digits_only(p, '/');
    lemma_split_first(dotted(ip), '/', p);
    lemma_split_first(p, '/', seq![]);
    assert(split_at_char(long@, '/') =~= seq![dotted(ip), p]);
    if prefix <= u32::MAX {
        crate::numeric::law_parse_printed(prefix, u32::MAX as nat);
    } else {
        assert(parsed(p, 10, u32::MAX as nat) is None || parsed(p, 10, u32::MAX as nat)->Some_0
            == prefix);
    }
    lemma_split_first(bare@, '/', seq![]);
}

/// An interface is brought up and down by its one flag: nothing else changes, and
/// down undoes up where it was down before.
pub proof fn law_up_and_down(flags: i16, up: i16, down: i16)
    requires
        call_ensures(flags_up, (flags,), up),
        call_ensures(flags_down, (up,), down),
    ensures
        up & 1 == 1,
        down & 1 == 0,
        up & !1i16 == flags & !1i16,
        down & !1i16 == flags & !1i16,
        flags & 1 == 0 ==> down == flags,
{
    assert(flags & 1 == 0 ==> (flags | 1) & !1i16 == flags) by (bit_vector);
}

} // verus!
