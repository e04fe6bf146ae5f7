//! The unified socket address model and its text forms.
use vstd::prelude::*;

use std::sync::Arc;

use crate::text::{dec_text, hex_text, push_dec, push_hex};

verus! {

/// An IPv4 socket address: four octets and a port.
#[derive(Clone, Copy, Debug, PartialEq, Eq)]
pub struct SocketAddrV4 {
    pub octets: [u8; 4],
    pub port: u16,
}

/// An IPv6 socket address: eight 16-bit segments, a port, the flow
/// information and the scope id.
#[derive(Clone, Copy, Debug, PartialEq, Eq)]
pub struct SocketAddrV6 {
    pub segments: [u16; 8],
    pub port: u16,
    pub flowinfo: u32,
    pub scope_id: u32,
}

/// A network socket address in its standard form: IPv4 or IPv6.
#[derive(Clone, Copy, Debug, PartialEq, Eq)]
pub enum IpSocketAddr {
    V4(SocketAddrV4),
    V6(SocketAddrV6),
}

/// A Unix-domain socket address: a filesystem path, or none for an unnamed
/// or abstract socket.
#[derive(Debug, PartialEq, Eq)]
pub struct UnixSocketAddr {
    pub path: Option<String>,
}

/// A socket address of any transport family.
#[derive(Debug, PartialEq, Eq)]
#[non_exhaustive]
pub enum SocketAddr {
    /// No meaningful address.
    Unknown,
    IPv4(SocketAddrV4),
    IPv6(SocketAddrV6),
    /// Shared, so that the copies made from one accept event hold one path.
    Unix(Arc<UnixSocketAddr>),
}

impl SocketAddrV4 {
    pub fn new(octets: [u8; 4], port: u16) -> (r: SocketAddrV4)
        ensures
            r.octets@ == octets@,
            r.port == port,
    {
        SocketAddrV4 { octets, port }
    }
}

impl SocketAddrV6 {
    pub fn new(segments: [u16; 8], port: u16, flowinfo: u32, scope_id: u32) -> (r: SocketAddrV6)
        ensures
            r.segments@ == segments@,
            r.port == port,
            r.flowinfo == flowinfo,
            r.scope_id == scope_id,
    {
        SocketAddrV6 { segments, port, flowinfo, scope_id }
    }
}

impl Clone for UnixSocketAddr {
    fn clone(&self) -> (r: Self)
        ensures
            r == *self,
    {
        match &self.path {
            Some(p) => UnixSocketAddr { path: Some(p.clone()) },
            None => UnixSocketAddr { path: None },
        }
    }
}

impl Clone for SocketAddr {
    fn clone(&self) -> (r: Self)
        ensures
            r == *self,
    {
        match self {
            SocketAddr::Unknown => SocketAddr::Unknown,
            SocketAddr::IPv4(a) => SocketAddr::IPv4(*a),
            SocketAddr::IPv6(a) => SocketAddr::IPv6(*a),
            SocketAddr::Unix(a) => SocketAddr::Unix(Arc::clone(a)),
        }
    }
}

/// The unified address of a standard address.
pub open spec fn from_ip(a: IpSocketAddr) -> SocketAddr {
    match a {
        IpSocketAddr::V4(v) => SocketAddr::IPv4(v),
        IpSocketAddr::V6(v) => SocketAddr::IPv6(v),
    }
}

impl From<IpSocketAddr> for SocketAddr {
    fn from(a: IpSocketAddr) -> (r: SocketAddr)
        ensures
            r == from_ip(a),
    {
        match a {
            IpSocketAddr::V4(v) => SocketAddr::IPv4(v),
            IpSocketAddr::V6(v) => SocketAddr::IPv6(v),
        }
    }
}

impl vstd::std_specs::convert::FromSpecImpl<IpSocketAddr> for SocketAddr {
    open spec fn obeys_from_spec() -> bool {
        true
    }

    open spec fn from_spec(a: IpSocketAddr) -> SocketAddr {
        from_ip(a)
    }
}

impl From<SocketAddrV4> for SocketAddr {
    fn from(a: SocketAddrV4) -> (r: SocketAddr)
        ensures
            r == SocketAddr::IPv4(a),
    {
        SocketAddr::IPv4(a)
    }
}

impl vstd::std_specs::convert::FromSpecImpl<SocketAddrV4> for SocketAddr {
    open spec fn obeys_from_spec() -> bool {
        true
    }

    open spec fn from_spec(a: SocketAddrV4) -> SocketAddr {
        SocketAddr::IPv4(a)
    }
}

impl From<SocketAddrV6> for SocketAddr {
    fn from(a: SocketAddrV6) -> (r: SocketAddr)
        ensures
            r == SocketAddr::IPv6(a),
    {
        SocketAddr::IPv6(a)
    }
}

impl vstd::std_specs::convert::FromSpecImpl<SocketAddrV6> for SocketAddr {
    open spec fn obeys_from_spec() -> bool {
        true
    }

    open spec fn from_spec(a: SocketAddrV6) -> SocketAddr {
        SocketAddr::IPv6(a)
    }
}

impl From<UnixSocketAddr> for SocketAddr {
    fn from(a: UnixSocketAddr) -> (r: SocketAddr)
        ensures
            r == SocketAddr::Unix(Arc::new(a)),
    {
        SocketAddr::Unix(Arc::new(a))
    }
}

impl vstd::std_specs::convert::FromSpecImpl<UnixSocketAddr> for SocketAddr {
    open spec fn obeys_from_spec() -> bool {
        true
    }

    open spec fn from_spec(a: UnixSocketAddr) -> SocketAddr {
        SocketAddr::Unix(Arc::new(a))
    }
}

impl SocketAddr {
    pub open spec fn spec_is_ipv4(&self) -> bool {
        self is IPv4
    }

    pub open spec fn spec_is_ipv6(&self) -> bool {
        self is IPv6
    }

    pub open spec fn spec_is_unix(&self) -> bool {
        self is Unix
    }

    /// The standard form: present for IPv4 and IPv6 addresses only.
    pub open spec fn std_form(&self) -> Option<IpSocketAddr> {
        match self {
            SocketAddr::IPv4(v) => Some(IpSocketAddr::V4(*v)),
            SocketAddr::IPv6(v) => Some(IpSocketAddr::V6(*v)),
            _ => None,
        }
    }

    /// The IPv4 address held, if this is one.
    pub open spec fn ipv4(&self) -> Option<SocketAddrV4> {
        match self {
            SocketAddr::IPv4(v) => Some(*v),
            _ => None,
        }
    }

    /// The IPv6 address held, if this is one.
    pub open spec fn ipv6(&self) -> Option<SocketAddrV6> {
        match self {
            SocketAddr::IPv6(v) => Some(*v),
            _ => None,
        }
    }

    /// The Unix-domain address held, if this is one.
    pub open spec fn unix(&self) -> Option<UnixSocketAddr> {
        match self {
            SocketAddr::Unix(v) => Some(**v),
            _ => None,
        }
    }

    /// Whether this is an IPv4 socket address.
    #[verifier::when_used_as_spec(spec_is_ipv4)]
    pub fn is_ipv4(&self) -> (r: bool)
        ensures
            r == self.spec_is_ipv4(),
    {
        matches!(*self, SocketAddr::IPv4(_))
    }

    /// Whether this is an IPv6 socket address.
    #[verifier::when_used_as_spec(spec_is_ipv6)]
    pub fn is_ipv6(&self) -> (r: bool)
        ensures
            r == self.spec_is_ipv6(),
    {
        matches!(*self, SocketAddr::IPv6(_))
    }

    /// Whether this is a Unix-domain socket address.
    #[verifier::when_used_as_spec(spec_is_unix)]
    pub fn is_unix(&self) -> (r: bool)
        ensures
            r == self.spec_is_unix(),
    {
        matches!(*self, SocketAddr::Unix(_))
    }

    /// Converts to the standard form; `None` for unknown and Unix-domain
    /// addresses.
    pub fn into_std(self) -> (r: Option<IpSocketAddr>)
        ensures
            r == self.std_form(),
    {
        match self {
            SocketAddr::IPv4(a) => Some(IpSocketAddr::V4(a)),
            SocketAddr::IPv6(a) => Some(IpSocketAddr::V6(a)),
            _ => None,
        }
    }

    /// The IPv6 address held, if this is one.
    pub fn as_ipv6(&self) -> (r: Option<&SocketAddrV6>)
        ensures
            r.is_some() == self.ipv6().is_some(),
            r.is_some() ==> self.ipv6() == Some(*r.unwrap()),
    {
        match self {
            SocketAddr::IPv6(a) => Some(a),
            _ => None,
        }
    }

    /// The IPv4 address held, if this is one.
    pub fn as_ipv4(&self) -> (r: Option<&SocketAddrV4>)
        ensures
            r.is_some() == self.ipv4().is_some(),
            r.is_some() ==> self.ipv4() == Some(*r.unwrap()),
    {
        match self {
            SocketAddr::IPv4(a) => Some(a),
            _ => None,
        }
    }

    /// The Unix-domain address held, if this is one.
    pub fn as_unix(&self) -> (r: Option<&UnixSocketAddr>)
        ensures
            r.is_some() == self.unix().is_some(),
            r.is_some() ==> self.unix() == Some(*r.unwrap()),
    {
        match self {
            SocketAddr::Unix(a) => Some(a),
            _ => None,
        }
    }
}

/// Dotted-decimal text of four octets.
pub open spec fn ipv4_text(o: Seq<u8>) -> Seq<char> {
    dec_text(o[0] as nat) + seq!['.'] + dec_text(o[1] as nat) + seq!['.'] + dec_text(o[2] as nat)
        + seq!['.'] + dec_text(o[3] as nat)
}

/// Hexadecimal text of each segment, separated by colons.
pub open spec fn hex_list(s: Seq<u16>) -> Seq<char>
    decreases s.len(),
{
    if s.len() == 0 {
        seq![]
    } else if s.len() == 1 {
        hex_text(s[0] as nat)
    } else {
        hex_list(s.drop_last()) + seq![':'] + hex_text(s.last() as nat)
    }
}

/// The number of consecutive zero segments that end just before index `i`.
pub open spec fn zeros_ending(s: Seq<u16>, i: nat) -> nat
    decreases i,
{
    if 0 < i <= s.len() && s[i - 1] == 0 {
        1 + zeros_ending(s, (i - 1) as nat)
    } else {
        0
    }
}

/// Start and length of the first longest run of zero segments among the
/// first `n` segments.
pub open spec fn longest_zero_run(s: Seq<u16>, n: nat) -> (nat, nat)
    decreases n,
{
    if n == 0 {
        (0, 0)
    } else {
        let prev = longest_zero_run(s, (n - 1) as nat);
        let c = zeros_ending(s, n);
        if c > prev.1 {
            ((n - c) as nat, c)
        } else {
            prev
        }
    }
}

/// Whether eight segments are an IPv4 address mapped into IPv6
/// (`::ffff:a.b.c.d`).
pub open spec fn is_ipv4_mapped(s: Seq<u16>) -> bool {
    &&& s[0] == 0 && s[1] == 0 && s[2] == 0 && s[3] == 0 && s[4] == 0
    &&& s[5] == 0xffff
}

/// Text of an IPv6 address: the mapped IPv4 form where it applies, else
/// colon-separated hexadecimal segments in which the first longest run of
/// two or more zero segments is written `::`.
pub open spec fn ipv6_text(s: Seq<u16>) -> Seq<char> {
    if is_ipv4_mapped(s) {
        seq![':', ':', 'f', 'f', 'f', 'f', ':'] + ipv4_text(
            seq![(s[6] / 256) as u8, (s[6] % 256) as u8, (s[7] / 256) as u8, (s[7] % 256) as u8],
        )
    } else {
        let run = longest_zero_run(s, s.len());
        if run.1 > 1 {
            hex_list(s.subrange(0, run.0 as int)) + seq![':', ':'] + hex_list(
                s.subrange((run.0 + run.1) as int, s.len() as int),
            )
        } else {
            hex_list(s)
        }
    }
}

/// `a.b.c.d:port`.
pub open spec fn v4_text(a: SocketAddrV4) -> Seq<char> {
    ipv4_text(a.octets@) + seq![':'] + dec_text(a.port as nat)
}

/// `[ip]:port`, or `[ip%scope]:port` where the scope id is not zero.
pub open spec fn v6_text(a: SocketAddrV6) -> Seq<char> {
    let scope = if a.scope_id == 0 {
        seq![]
    } else {
        seq!['%'] + dec_text(a.scope_id as nat)
    };
    seq!['['] + ipv6_text(a.segments@) + scope + seq![']', ':'] + dec_text(a.port as nat)
}

/// `unix://` followed by the path, or by `unknown` where there is none.
pub open spec fn unix_text(a: UnixSocketAddr) -> Seq<char> {
    seq!['u', 'n', 'i', 'x', ':', '/', '/'] + match a.path {
        Some(p) => p@,
        None => seq!['u', 'n', 'k', 'n', 'o', 'w', 'n'],
    }
}

/// Text of a unified address.
pub open spec fn socket_text(a: SocketAddr) -> Seq<char> {
    match a {
        SocketAddr::Unknown => seq!['u', 'n', 'k', 'n', 'o', 'w', 'n'],
        SocketAddr::IPv4(v) => seq!['s', 'o', 'c', 'k', 'e', 't', ':', '/', '/'] + v4_text(v),
        SocketAddr::IPv6(v) => seq!['s', 'o', 'c', 'k', 'e', 't', ':', '/', '/'] + v6_text(v),
        SocketAddr::Unix(u) => unix_text(*u),
    }
}

/// Appends the dotted-decimal text of four octets.
fn push_ipv4(s: &mut String, a: u8, b: u8, c: u8, d: u8)
    ensures
        final(s)@ == old(s)@ + ipv4_text(seq![a, b, c, d]),
{
    proof {
        reveal_strlit(".");
    }
    push_dec(s, a as u32);
    s.append(".");
    push_dec(s, b as u32);
    s.append(".");
    push_dec(s, c as u32);
    s.append(".");
    push_dec(s, d as u32);
    proof {
        assert(final(s)@ =~= old(s)@ + ipv4_text(seq![a, b, c, d]));
    }
}

/// Appends the segments `lo..hi`, in hexadecimal, separated by colons.
fn push_hex_list(s: &mut String, seg: &[u16; 8], lo: usize, hi: usize)
    requires
        lo <= hi <= 8,
    ensures
        final(s)@ == old(s)@ + hex_list(seg@.subrange(lo as int, hi as int)),
{
    proof {
        assert(seg@.subrange(lo as int, lo as int) =~= seq![]);
    }
    let mut i: usize = lo;
    while i < hi
        invariant
            lo <= i <= hi <= 8,
            seg@.len() == 8,
            s@ == old(s)@ + hex_list(seg@.subrange(lo as int, i as int)),
        decreases hi - i,
    {
        let ghost before = s@;
        proof {
            reveal_strlit(":");
        }
        if i > lo {
            s.append(":");
        }
        push_hex(s, seg[i] as u32);
        proof {
            let next = seg@.subrange(lo as int, i + 1);
            assert(next.drop_last() =~= seg@.subrange(lo as int, i as int));
            assert(next.last() == seg@[i as int]);
            if i == lo {
                assert(s@ =~= before + hex_list(next));
            } else {
                assert(s@ =~= before + seq![':'] + hex_text(seg@[i as int] as nat));
            }
            assert(s@ =~= old(s)@ + hex_list(next));
        }
        i = i + 1;
    }
}

/// Finds the first longest run of zero segments.
fn find_zero_run(seg: &[u16; 8]) -> (r: (usize, usize))
    ensures
        r.0 as nat == longest_zero_run(seg@, 8).0,
        r.1 as nat == longest_zero_run(seg@, 8).1,
        r.0 + r.1 <= 8,
{
    let mut cur: usize = 0;
    let mut best_start: usize = 0;
    let mut best_len: usize = 0;
    let mut i: usize = 0;
    while i < 8
        invariant
            i <= 8,
            seg@.len() == 8,
            cur as nat == zeros_ending(seg@, i as nat),
            cur <= i,
            best_start as nat == longest_zero_run(seg@, i as nat).0,
            best_len as nat == longest_zero_run(seg@, i as nat).1,
            best_start + best_len <= i,
        decreases 8 - i,
    {
        if seg[i] == 0 {
            cur = cur + 1;
        } else {
            cur = 0;
        }
        if cur > best_len {
            best_start = i + 1 - cur;
            best_len = cur;
        }
        i = i + 1;
    }
    (best_start, best_len)
}

/// Appends the text of an IPv6 address.
fn push_ipv6(s: &mut String, seg: &[u16; 8])
    ensures
        final(s)@ == old(s)@ + ipv6_text(seg@),
{
    proof {
        reveal_strlit("::ffff:");
        reveal_strlit("::");
    }
    if seg[0] == 0 && seg[1] == 0 && seg[2] == 0 && seg[3] == 0 && seg[4] == 0 && seg[5] == 0xffff {
        s.append("::ffff:");
        push_ipv4(
            s,
            (seg[6] / 256) as u8,
            (seg[6] % 256) as u8,
            (seg[7] / 256) as u8,
            (seg[7] % 256) as u8,
        );
        proof {
            assert(final(s)@ =~= old(s)@ + ipv6_text(seg@));
        }
    } else {
        let (start, len) = find_zero_run(seg);
        if len > 1 {
            push_hex_list(s, seg, 0, start);
            s.append("::");
            push_hex_list(s, seg, start + len, 8);
        } else {
            push_hex_list(s, seg, 0, 8);
            proof {
                assert(seg@.subrange(0, 8) =~= seg@);
            }
        }
        proof {
            assert(final(s)@ =~= old(s)@ + ipv6_text(seg@));
        }
    }
}

/// Appends `a.b.c.d:port`.
fn push_v4(s: &mut String, a: &SocketAddrV4)
    ensures
        final(s)@ == old(s)@ + v4_text(*a),
{
    proof {
        reveal_strlit(":");
    }
    push_ipv4(s, a.octets[0], a.octets[1], a.octets[2], a.octets[3]);
    s.append(":");
    push_dec(s, a.port as u32);
    proof {
        assert(seq![a.octets[0], a.octets[1], a.octets[2], a.octets[3]] =~= a.octets@);
        assert(final(s)@ =~= old(s)@ + v4_text(*a));
    }
}

/// Appends `[ip]:port` or `[ip%scope]:port`.
fn push_v6(s: &mut String, a: &SocketAddrV6)
    ensures
        final(s)@ == old(s)@ + v6_text(*a),
{
    proof {
        reveal_strlit("[");
        reveal_strlit("%");
        reveal_strlit("]:");
    }
    s.append("[");
    push_ipv6(s, &a.segments);
    if a.scope_id != 0 {
        s.append("%");
        push_dec(s, a.scope_id);
    }
    s.append("]:");
    push_dec(s, a.port as u32);
    proof {
        assert(final(s)@ =~= old(s)@ + v6_text(*a));
    }
}

/// Appends `unix://` and the path, or `unix://unknown`.
fn push_unix(s: &mut String, a: &UnixSocketAddr)
    ensures
        final(s)@ == old(s)@ + unix_text(*a),
{
    proof {
        reveal_strlit("unix://");
        reveal_strlit("unknown");
    }
    s.append("unix://");
    match &a.path {
        Some(p) => s.append(p.as_str()),
        None => s.append("unknown"),
    }
    proof {
        assert(final(s)@ =~= old(s)@ + unix_text(*a));
    }
}

impl SocketAddrV4 {
    /// `a.b.c.d:port`, e.g. `127.0.0.1:8080`.
    pub fn to_string(&self) -> (r: String)
        ensures
            r@ == v4_text(*self),
    {
        let mut s = String::new();
        push_v4(&mut s, self);
        proof {
            assert(s@ =~= v4_text(*self));
        }
        s
    }
}

impl SocketAddrV6 {
    /// `[ip]:port`, or `[ip%scope]:port` where the scope id is not zero.
    pub fn to_string(&self) -> (r: String)
        ensures
            r@ == v6_text(*self),
    {
        let mut s = String::new();
        push_v6(&mut s, self);
        proof {
            assert(s@ =~= v6_text(*self));
        }
        s
    }
}

impl SocketAddr {
    /// `unknown`, `socket://<ip>:<port>`, `unix://<path>` or `unix://unknown`.
    pub fn to_string(&self) -> (r: String)
        ensures
            r@ == socket_text(*self),
    {
        proof {
            reveal_strlit("unknown");
            reveal_strlit("socket://");
        }
        let mut s = String::new();
        match self {
            SocketAddr::Unknown => s.append("unknown"),
            SocketAddr::IPv4(a) => {
                s.append("socket://");
                push_v4(&mut s, a);
            },
            SocketAddr::IPv6(a) => {
                s.append("socket://");
                push_v6(&mut s, a);
            },
            SocketAddr::Unix(a) => push_unix(&mut s, a),
        }
        proof {
            assert(s@ =~= socket_text(*self));
        }
        s
    }
}

/// Transport-protocol tag.
#[derive(Clone, Copy, Debug, PartialEq, Eq, Structural)]
pub enum TransProto {
    Unknown,
    Tcp,
    Udp,
}

/// Application-protocol tag.
#[derive(Clone, Copy, Debug, PartialEq, Eq, Structural)]
pub enum AppProto {
    Unknown,
    Http,
}

pub open spec fn trans_text(t: TransProto) -> Seq<char> {
    match t {
        TransProto::Unknown => seq!['u', 'n', 'k', 'n', 'o', 'w', 'n'],
        TransProto::Tcp => seq!['T', 'C', 'P'],
        TransProto::Udp => seq!['U', 'D', 'P'],
    }
}

pub open spec fn app_text(a: AppProto) -> Seq<char> {
    match a {
        AppProto::Unknown => seq!['u', 'n', 'k', 'n', 'o', 'w', 'n'],
        AppProto::Http => seq!['H', 'T', 'T', 'P'],
    }
}

impl TransProto {
    /// `TCP`, `UDP` or `unknown`.
    pub fn as_str(&self) -> (r: &'static str)
        ensures
            r@ == trans_text(*self),
    {
        match self {
            TransProto::Unknown => {
                proof {
                    reveal_strlit("unknown");
                }
                "unknown"
            },
            TransProto::Tcp => {
                proof {
                    reveal_strlit("TCP");
                }
                "TCP"
            },
            TransProto::Udp => {
                proof {
                    reveal_strlit("UDP");
                }
                "UDP"
            },
        }
    }
}

impl AppProto {
    /// `HTTP` or `unknown`.
    pub fn as_str(&self) -> (r: &'static str)
        ensures
            r@ == app_text(*self),
    {
        match self {
            AppProto::Unknown => {
                proof {
                    reveal_strlit("unknown");
                }
                "unknown"
            },
            AppProto::Http => {
                proof {
                    reveal_strlit("HTTP");
                }
                "HTTP"
            },
        }
    }
}

/// A socket address together with the transport and application protocol
/// spoken on it.
#[derive(Debug, PartialEq, Eq)]
pub struct LocalAddr {
    pub addr: SocketAddr,
    pub trans_proto: TransProto,
    pub app_proto: AppProto,
}

/// Text of a tagged address: `(<transport>) <application>://<ip>:<port>`,
/// `(<transport>) unix://<path>`, `(<transport>) unix://unknown`, or plain
/// `unknown` for an unknown address whatever its tags.
pub open spec fn local_text(l: LocalAddr) -> Seq<char> {
    let head = seq!['('] + trans_text(l.trans_proto) + seq![')', ' '];
    match l.addr {
        SocketAddr::Unknown => seq!['u', 'n', 'k', 'n', 'o', 'w', 'n'],
        SocketAddr::IPv4(v) => head + app_text(l.app_proto) + seq![':', '/', '/'] + v4_text(v),
        SocketAddr::IPv6(v) => head + app_text(l.app_proto) + seq![':', '/', '/'] + v6_text(v),
        SocketAddr::Unix(u) => head + unix_text(*u),
    }
}

impl Clone for LocalAddr {
    fn clone(&self) -> (r: Self)
        ensures
            r == *self,
    {
        LocalAddr { addr: self.addr.clone(), trans_proto: self.trans_proto, app_proto: self.app_proto }
    }
}

impl Default for LocalAddr {
    /// An unknown address with unknown tags.
    fn default() -> (r: Self)
        ensures
            r == (LocalAddr {
                addr: SocketAddr::Unknown,
                trans_proto: TransProto::Unknown,
                app_proto: AppProto::Unknown,
            }),
    {
        LocalAddr::new(SocketAddr::Unknown, TransProto::Unknown, AppProto::Unknown)
    }
}

impl core::ops::Deref for LocalAddr {
    type Target = SocketAddr;

    fn deref(&self) -> (r: &SocketAddr)
        ensures
            *r == self.addr,
    {
        &self.addr
    }
}

impl core::ops::DerefMut for LocalAddr {
    fn deref_mut(&mut self) -> (r: &mut SocketAddr)
        ensures
            *r == old(self).addr,
            final(self).addr == *final(r),
            final(self).trans_proto == old(self).trans_proto,
            final(self).app_proto == old(self).app_proto,
    {
        &mut self.addr
    }
}

impl LocalAddr {
    pub fn new(addr: SocketAddr, trans_proto: TransProto, app_proto: AppProto) -> (r: LocalAddr)
        ensures
            r == (LocalAddr { addr, trans_proto, app_proto }),
    {
        LocalAddr { addr, trans_proto, app_proto }
    }

    /// Converts the address to its standard form; `None` for unknown and
    /// Unix-domain addresses.
    pub fn into_std(self) -> (r: Option<IpSocketAddr>)
        ensures
            r == self.addr.std_form(),
    {
        self.addr.into_std()
    }

    pub fn to_string(&self) -> (r: String)
        ensures
            r@ == local_text(*self),
    {
        proof {
            reveal_strlit("unknown");
            reveal_strlit("(");
            reveal_strlit(") ");
            reveal_strlit("://");
        }
        let mut s = String::new();
        match &self.addr {
            SocketAddr::Unknown => s.append("unknown"),
            SocketAddr::IPv4(a) => {
                s.append("(");
                s.append(self.trans_proto.as_str());
                s.append(") ");
                s.append(self.app_proto.as_str());
                s.append("://");
                push_v4(&mut s, a);
            },
            SocketAddr::IPv6(a) => {
                s.append("(");
                s.append(self.trans_proto.as_str());
                s.append(") ");
                s.append(self.app_proto.as_str());
                s.append("://");
                push_v6(&mut s, a);
            },
            SocketAddr::Unix(a) => {
                s.append("(");
                s.append(self.trans_proto.as_str());
                s.append(") ");
                push_unix(&mut s, a);
            },
        }
        proof {
            assert(s@ =~= local_text(*self));
        }
        s
    }
}

/// Converting a standard address to the unified type and back gives it
/// unchanged; unknown and Unix-domain addresses have no standard form.
pub proof fn lemma_std_round_trip(a: IpSocketAddr, u: UnixSocketAddr)
    ensures
        from_ip(a).std_form() == Some(a),
        SocketAddr::Unknown.std_form() is None,
        SocketAddr::Unix(Arc::new(u)).std_form() is None,
{
}

/// An unknown address is of no family; any other address is of exactly one
/// of IPv4, IPv6 and Unix-domain.
pub proof fn lemma_one_family(a: SocketAddr)
    ensures
        a is Unknown ==> !a.is_ipv4() && !a.is_ipv6() && !a.is_unix(),
        !(a is Unknown) ==> (a.is_ipv4() || a.is_ipv6() || a.is_unix()),
        !(a.is_ipv4() && a.is_ipv6()),
        !(a.is_ipv4() && a.is_unix()),
        !(a.is_ipv6() && a.is_unix()),
{
}

/// Each accessor yields a value exactly when the matching predicate holds.
pub proof fn lemma_accessors_follow_predicates(a: SocketAddr)
    ensures
        a.ipv4().is_some() == a.is_ipv4(),
        a.ipv6().is_some() == a.is_ipv6(),
        a.unix().is_some() == a.is_unix(),
{
}

} // verus!
