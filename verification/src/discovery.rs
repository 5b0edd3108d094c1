//! Discovery: socket addresses, discovery packets, discovered hosts and the
//! options of the discovery service.

use vstd::prelude::*;

use crate::common::Target;
use vstd::string::StringSliceAdditionalSpecFns;
use crate::cstr::{bytes_prefix, c_prefix, chars_have_nul, check_c_string, lemma_nul_index, has_nul, is_text_of, nul_index, nul_position, opt_c_str, utf8_lossy, NulError};
use crate::error::{Error, ErrorCode};

verus! {

/// The IPv4 address family number, the same on every platform chiaki supports.
pub const AF_INET: u16 = 2;

/// Discovery port of a PS4.
pub const DISCOVERY_PORT_PS4: u16 = 987;

/// Discovery port of a PS5.
pub const DISCOVERY_PORT_PS5: u16 = 9302;

/// An IPv4 socket address (`struct sockaddr_in`) as it lies in memory: the
/// family in host byte order, the port in network byte order, the address
/// octets in order, then eight zero bytes.
#[derive(Debug, Clone, Copy)]
pub struct SockAddrIn {
    pub family: u16,
    pub port_be: [u8; 2],
    pub addr: [u8; 4],
    pub zero: [u8; 8],
}

/// `a` is the socket address of `ip`:`port`.
pub open spec fn is_ipv4_sockaddr(a: SockAddrIn, ip: Seq<u8>, port: u16) -> bool {
    &&& a.family == AF_INET
    &&& a.port_be@ == seq![(port / 256) as u8, (port % 256) as u8]
    &&& a.addr@ == ip
    &&& a.zero@ == Seq::new(8, |i: int| 0u8)
}

/// The socket address of `ip`:`port`.
pub fn ipv4_sockaddr(ip: [u8; 4], port: u16) -> (a: SockAddrIn)
    ensures
        is_ipv4_sockaddr(a, ip@, port),
        a.port_be@[0] * 256 + a.port_be@[1] == port,
{
    let a = SockAddrIn {
        family: AF_INET,
        port_be: [(port / 256) as u8, (port % 256) as u8],
        addr: ip,
        zero: [0u8; 8],
    };
    assert(a.port_be@ =~= seq![(port / 256) as u8, (port % 256) as u8]);
    assert(a.zero@ =~= Seq::new(8, |i: int| 0u8));
    a
}

/// The discovery port of a console: 9302 for a PS5, 987 for a PS4.
pub fn discovery_port(ps5: bool) -> (port: u16)
    ensures
        port == (if ps5 { DISCOVERY_PORT_PS5 } else { DISCOVERY_PORT_PS4 }),
{
    if ps5 {
        DISCOVERY_PORT_PS5
    } else {
        DISCOVERY_PORT_PS4
    }
}

/// Where a subnet-wide search goes: 255.255.255.255 on the console's
/// discovery port.
pub fn broadcast_sockaddr(ps5: bool) -> (a: SockAddrIn)
    ensures
        is_ipv4_sockaddr(a, seq![255u8, 255u8, 255u8, 255u8], if ps5 { DISCOVERY_PORT_PS5 } else { DISCOVERY_PORT_PS4 }),
{
    let ip = [255u8; 4];
    assert(ip@ =~= seq![255u8, 255u8, 255u8, 255u8]);
    ipv4_sockaddr(ip, discovery_port(ps5))
}

/// `CHIAKI_DISCOVERY_PROTOCOL_VERSION_PS4`, NUL-terminated.
pub const DISCOVERY_PROTOCOL_VERSION_PS4: [u8; 9] = [48, 48, 48, 50, 48, 48, 50, 48, 0];

/// `CHIAKI_DISCOVERY_PROTOCOL_VERSION_PS5`, NUL-terminated.
pub const DISCOVERY_PROTOCOL_VERSION_PS5: [u8; 9] = [48, 48, 48, 51, 48, 48, 49, 48, 0];

/// The protocol version a console speaks, NUL-terminated.
pub open spec fn protocol_version_for(ps5: bool) -> Seq<u8> {
    if ps5 {
        DISCOVERY_PROTOCOL_VERSION_PS5@
    } else {
        DISCOVERY_PROTOCOL_VERSION_PS4@
    }
}

/// The command of a discovery packet (`ChiakiDiscoveryCmd`).
#[derive(Debug, Clone, Copy, PartialEq, Eq, Structural)]
pub enum DiscoveryCmd {
    Srch,
    Wakeup,
}

/// A discovery packet (`ChiakiDiscoveryPacket`), owning its protocol version.
pub struct DiscoveryPacket {
    cmd: DiscoveryCmd,
    protocol_version: Vec<u8>,
    user_credential: u64,
}

/// What a discovery packet says.
pub struct DiscoveryPacketView {
    pub cmd: DiscoveryCmd,
    pub protocol_version: Seq<u8>,
    pub user_credential: u64,
}

impl View for DiscoveryPacket {
    type V = DiscoveryPacketView;

    closed spec fn view(&self) -> DiscoveryPacketView {
        DiscoveryPacketView {
            cmd: self.cmd,
            protocol_version: self.protocol_version@,
            user_credential: self.user_credential,
        }
    }
}

impl DiscoveryPacket {
    /// The protocol version is always a C string: it holds no NUL.
    #[verifier::type_invariant]
    spec fn version_is_c_string(self) -> bool {
        !self.protocol_version@.contains(0u8)
    }

    /// A packet with the given command and credential; the protocol version
    /// is the C string held by `version` (cut at its first NUL).
    fn with_cmd(cmd: DiscoveryCmd, version: &[u8], credential: u64) -> (p: Self)
        ensures
            p@ == (DiscoveryPacketView {
                cmd,
                protocol_version: c_prefix(version@),
                user_credential: credential,
            }),
    {
        let end = nul_position(version);
        let ver = bytes_prefix(version, end);
        proof {
            lemma_nul_index(version@);
            assert forall|i: int| 0 <= i < ver@.len() implies ver@[i] != 0u8 by {}
        }
        DiscoveryPacket { cmd, protocol_version: ver, user_credential: credential }
    }

    /// A search packet for a PS4 or a PS5; it carries no credential.
    pub fn new_search(ps5: bool) -> (p: Self)
        ensures
            p@ == (DiscoveryPacketView {
                cmd: DiscoveryCmd::Srch,
                protocol_version: c_prefix(protocol_version_for(ps5)),
                user_credential: 0,
            }),
    {
        if ps5 {
            Self::with_cmd(DiscoveryCmd::Srch, DISCOVERY_PROTOCOL_VERSION_PS5.as_slice(), 0)
        } else {
            Self::with_cmd(DiscoveryCmd::Srch, DISCOVERY_PROTOCOL_VERSION_PS4.as_slice(), 0)
        }
    }

    /// A wakeup packet for a PS4 or a PS5, carrying the user credential.
    pub fn new_wakeup(credential: u64, ps5: bool) -> (p: Self)
        ensures
            p@ == (DiscoveryPacketView {
                cmd: DiscoveryCmd::Wakeup,
                protocol_version: c_prefix(protocol_version_for(ps5)),
                user_credential: credential,
            }),
    {
        if ps5 {
            Self::with_cmd(DiscoveryCmd::Wakeup, DISCOVERY_PROTOCOL_VERSION_PS5.as_slice(), credential)
        } else {
            Self::with_cmd(DiscoveryCmd::Wakeup, DISCOVERY_PROTOCOL_VERSION_PS4.as_slice(), credential)
        }
    }

    /// The command of the packet.
    pub fn cmd(&self) -> (c: DiscoveryCmd)
        ensures
            c == self@.cmd,
    {
        self.cmd
    }

    /// The protocol version the packet announces; it holds no NUL.
    pub fn protocol_version(&self) -> (v: &[u8])
        ensures
            v@ == self@.protocol_version,
            !v@.contains(0u8),
    {
        proof {
            use_type_invariant(self);
        }
        self.protocol_version.as_slice()
    }

    /// The user credential the packet carries.
    pub fn user_credential(&self) -> (c: u64)
        ensures
            c == self@.user_credential,
    {
        self.user_credential
    }

    /// The text of a formatted packet, from what `chiaki_discovery_packet_fmt`
    /// returned (`written`) and the buffer it wrote: a negative count is an
    /// `InvalidData` error; otherwise the written bytes, at most the buffer, as text.
    pub fn text_from_fmt(written: i32, buf: &[u8]) -> (r: Result<String, Error>)
        ensures
            r is Err <==> written < 0,
            r matches Err(e) ==> e.0 == ErrorCode::InvalidData,
            r matches Ok(s) ==> is_text_of(
                buf@.take(if written < buf@.len() { written as int } else { buf@.len() as int }),
                s@,
            ),
    {
        if written < 0 {
            return Err(Error(ErrorCode::InvalidData));
        }
        let n: usize = if (written as u64) < (buf.len() as u64) {
            written as usize
        } else {
            buf.len()
        };
        let text = bytes_prefix(buf, n);
        Ok(utf8_lossy(text.as_slice()))
    }
}

/// State of a discovered host (`ChiakiDiscoveryHostState`).
#[derive(Debug, Clone, Copy, PartialEq, Eq, Structural)]
pub enum DiscoveryHostState {
    Unknown,
    Ready,
    Standby,
}

/// A `ChiakiDiscoveryHost` as chiaki reports it: each C string as its bytes,
/// absent when null, with the console kind and firmware target chiaki
/// derived from it.
pub struct RawDiscoveryHost {
    pub state: DiscoveryHostState,
    pub host_request_port: u16,
    pub host_addr: Option<Vec<u8>>,
    pub system_version: Option<Vec<u8>>,
    pub device_discovery_protocol_version: Option<Vec<u8>>,
    pub host_name: Option<Vec<u8>>,
    pub host_type: Option<Vec<u8>>,
    pub host_id: Option<Vec<u8>>,
    pub running_app_titleid: Option<Vec<u8>>,
    pub running_app_name: Option<Vec<u8>>,
    pub is_ps5: bool,
    pub target: Target,
}

/// A discovered host, owning its data.
#[derive(Debug, Clone)]
pub struct DiscoveryHostInfo {
    pub state: DiscoveryHostState,
    pub host_request_port: u16,
    pub host_addr: Option<String>,
    pub system_version: Option<String>,
    pub device_discovery_protocol_version: Option<String>,
    pub host_name: Option<String>,
    pub host_type: Option<String>,
    pub host_id: Option<String>,
    pub running_app_titleid: Option<String>,
    pub running_app_name: Option<String>,
    pub is_ps5: bool,
    pub target: Target,
}

/// `s` is the text of the C string `p`, absent exactly when `p` is null.
pub open spec fn opt_text(p: Option<Vec<u8>>, s: Option<String>) -> bool {
    match p {
        None => s is None,
        Some(b) => s matches Some(t) && is_text_of(b@, t@),
    }
}

/// `info` is what `raw` reads as.
pub open spec fn host_info_of(raw: RawDiscoveryHost, info: DiscoveryHostInfo) -> bool {
    &&& info.state == raw.state
    &&& info.host_request_port == raw.host_request_port
    &&& opt_text(raw.host_addr, info.host_addr)
    &&& opt_text(raw.system_version, info.system_version)
    &&& opt_text(raw.device_discovery_protocol_version, info.device_discovery_protocol_version)
    &&& opt_text(raw.host_name, info.host_name)
    &&& opt_text(raw.host_type, info.host_type)
    &&& opt_text(raw.host_id, info.host_id)
    &&& opt_text(raw.running_app_titleid, info.running_app_titleid)
    &&& opt_text(raw.running_app_name, info.running_app_name)
    &&& info.is_ps5 == raw.is_ps5
    &&& info.target == raw.target
}

/// The text of a C string that may be null.
fn opt_text_of(p: &Option<Vec<u8>>) -> (s: Option<String>)
    ensures
        opt_text(*p, s),
{
    match p {
        None => None,
        Some(v) => opt_c_str(Some(v.as_slice())),
    }
}

/// Reads a discovered host out of what chiaki reported.
pub fn parse_discovery_host(h: &RawDiscoveryHost) -> (info: DiscoveryHostInfo)
    ensures
        host_info_of(*h, info),
        info.state == h.state,
        info.host_request_port == h.host_request_port,
        info.is_ps5 == h.is_ps5,
        info.target == h.target,
        h.host_addr is None <==> info.host_addr is None,
        h.host_name is None <==> info.host_name is None,
        h.host_id is None <==> info.host_id is None,
        h.system_version matches Some(b) ==> info.system_version matches Some(t) && is_text_of(b@, t@),
        h.host_addr matches Some(b) ==> info.host_addr matches Some(t) && is_text_of(b@, t@),
        h.host_name matches Some(b) ==> info.host_name matches Some(t) && is_text_of(b@, t@),
        h.host_type matches Some(b) ==> info.host_type matches Some(t) && is_text_of(b@, t@),
        h.host_id matches Some(b) ==> info.host_id matches Some(t) && is_text_of(b@, t@),
{
    DiscoveryHostInfo {
        state: h.state,
        host_request_port: h.host_request_port,
        host_addr: opt_text_of(&h.host_addr),
        system_version: opt_text_of(&h.system_version),
        device_discovery_protocol_version: opt_text_of(&h.device_discovery_protocol_version),
        host_name: opt_text_of(&h.host_name),
        host_type: opt_text_of(&h.host_type),
        host_id: opt_text_of(&h.host_id),
        running_app_titleid: opt_text_of(&h.running_app_titleid),
        running_app_name: opt_text_of(&h.running_app_name),
        is_ps5: h.is_ps5,
        target: h.target,
    }
}

/// Reads every host of a discovery service report, in order.
pub fn parse_discovery_hosts(hosts: &[RawDiscoveryHost]) -> (out: Vec<DiscoveryHostInfo>)
    ensures
        out@.len() == hosts@.len(),
        forall|i: int| 0 <= i < hosts@.len() ==> host_info_of(#[trigger] hosts@[i], out@[i]),
        forall|i: int|
            0 <= i < hosts@.len() ==> (#[trigger] out@[i]).state == hosts@[i].state && out@[i].host_request_port
                == hosts@[i].host_request_port && out@[i].is_ps5 == hosts@[i].is_ps5 && out@[i].target
                == hosts@[i].target,
{
    let mut out: Vec<DiscoveryHostInfo> = Vec::new();
    let mut i: usize = 0;
    while i < hosts.len()
        invariant
            i <= hosts@.len(),
            out@.len() == i,
            forall|j: int| 0 <= j < i ==> host_info_of(#[trigger] hosts@[j], out@[j]),
            forall|j: int|
                0 <= j < i ==> (#[trigger] out@[j]).state == hosts@[j].state && out@[j].host_request_port
                    == hosts@[j].host_request_port && out@[j].is_ps5 == hosts@[j].is_ps5 && out@[j].target
                    == hosts@[j].target,
        decreases hosts@.len() - i,
    {
        let info = parse_discovery_host(&hosts[i]);
        out.push(info);
        i = i + 1;
    }
    out
}

/// A discovered host reads with the state, request port, console kind and
/// firmware target chiaki reported for it: a console in standby stays in
/// standby, a ready one stays ready.
pub proof fn law_host_keeps_reported_state(h: RawDiscoveryHost, info: DiscoveryHostInfo)
    requires
        host_info_of(h, info),
    ensures
        info.state == h.state,
        info.host_request_port == h.host_request_port,
        info.is_ps5 == h.is_ps5,
        info.target == h.target,
        h.host_addr is None <==> info.host_addr is None,
        h.host_name is None <==> info.host_name is None,
        h.host_id is None <==> info.host_id is None,
{
}

/// Default number of hosts the discovery service keeps track of.
pub const DEFAULT_HOSTS_MAX: usize = 16;

/// Default interval between discovery pings, in milliseconds.
pub const DEFAULT_PING_MS: u64 = 500;

/// Default number of unanswered pings after which a host is dropped.
pub const DEFAULT_HOST_DROP_PINGS: u64 = 3;

/// Options of the discovery service (`ChiakiDiscoveryServiceOptions`),
/// owning the host to send pings to.
pub struct DiscoveryServiceOptions {
    hosts_max: usize,
    ping_ms: u64,
    ping_initial_ms: u64,
    host_drop_pings: u64,
    send_host: Option<String>,
}

/// What a set of discovery service options says.
pub struct DiscoveryServiceOptionsView {
    pub hosts_max: usize,
    pub ping_ms: u64,
    pub ping_initial_ms: u64,
    pub host_drop_pings: u64,
    pub send_host: Option<Seq<char>>,
}

/// The view of an optional string.
pub open spec fn opt_view(s: Option<String>) -> Option<Seq<char>> {
    match s {
        None => None,
        Some(t) => Some(t@),
    }
}

impl View for DiscoveryServiceOptions {
    type V = DiscoveryServiceOptionsView;

    closed spec fn view(&self) -> DiscoveryServiceOptionsView {
        DiscoveryServiceOptionsView {
            hosts_max: self.hosts_max,
            ping_ms: self.ping_ms,
            ping_initial_ms: self.ping_initial_ms,
            host_drop_pings: self.host_drop_pings,
            send_host: opt_view(self.send_host),
        }
    }
}

/// The options a new set starts from: 16 hosts, a ping every 500 ms, no
/// initial delay before the first ping, a host dropped after 3 missed pings,
/// no send host.
pub open spec fn default_service_options() -> DiscoveryServiceOptionsView {
    DiscoveryServiceOptionsView {
        hosts_max: DEFAULT_HOSTS_MAX,
        ping_ms: DEFAULT_PING_MS,
        ping_initial_ms: 0,
        host_drop_pings: DEFAULT_HOST_DROP_PINGS,
        send_host: None,
    }
}

impl DiscoveryServiceOptions {
    /// The send host, when set, is always a valid C string.
    #[verifier::type_invariant]
    spec fn send_host_is_c_string(self) -> bool {
        self.send_host matches Some(h) ==> !chars_have_nul(h@)
    }

    /// Options with the host count, ping interval and drop count the
    /// discovery service works with (zero for these would make chiaki fail to
    /// allocate or busy-poll); the delay before the first ping stays zero.
    pub fn new() -> (o: Self)
        ensures
            o@ == default_service_options(),
            o@.hosts_max == 16,
            o@.ping_ms == 500,
            o@.ping_initial_ms == 0,
            o@.host_drop_pings == 3,
            o@.send_host is None,
    {
        DiscoveryServiceOptions {
            hosts_max: DEFAULT_HOSTS_MAX,
            ping_ms: DEFAULT_PING_MS,
            ping_initial_ms: 0,
            host_drop_pings: DEFAULT_HOST_DROP_PINGS,
            send_host: None,
        }
    }

    /// Sets how many hosts the service keeps track of.
    pub fn set_hosts_max(&mut self, n: usize)
        ensures
            final(self)@ == (DiscoveryServiceOptionsView { hosts_max: n, ..old(self)@ }),
    {
        proof {
            use_type_invariant(&*self);
        }
        self.hosts_max = n;
    }

    /// Sets the interval between pings.
    pub fn set_ping_ms(&mut self, ms: u64)
        ensures
            final(self)@ == (DiscoveryServiceOptionsView { ping_ms: ms, ..old(self)@ }),
    {
        proof {
            use_type_invariant(&*self);
        }
        self.ping_ms = ms;
    }

    /// Sets the delay before the first ping.
    pub fn set_ping_initial_ms(&mut self, ms: u64)
        ensures
            final(self)@ == (DiscoveryServiceOptionsView { ping_initial_ms: ms, ..old(self)@ }),
    {
        proof {
            use_type_invariant(&*self);
        }
        self.ping_initial_ms = ms;
    }

    /// Sets after how many unanswered pings a host is dropped.
    pub fn set_host_drop_pings(&mut self, n: u64)
        ensures
            final(self)@ == (DiscoveryServiceOptionsView { host_drop_pings: n, ..old(self)@ }),
    {
        proof {
            use_type_invariant(&*self);
        }
        self.host_drop_pings = n;
    }

    /// Sets the host pings are sent to. A host that cannot be a C string (it
    /// holds a NUL) is refused and the options stay as they were.
    pub fn set_send_host(&mut self, host: &str) -> (r: Result<(), NulError>)
        ensures
            r is Ok <==> !has_nul(host),
            r matches Err(e) ==> e.nul_position == nul_index(host.spec_bytes()) && final(self)@ == old(self)@,
            r is Ok ==> final(self)@ == (DiscoveryServiceOptionsView { send_host: Some(host@), ..old(self)@ }),
    {
        proof {
            use_type_invariant(&*self);
        }
        match check_c_string(host) {
            Err(e) => Err(e),
            Ok(()) => {
                self.send_host = Some(host.to_owned());
                Ok(())
            },
        }
    }

    /// How many hosts the service keeps track of.
    pub fn hosts_max(&self) -> (n: usize)
        ensures
            n == self@.hosts_max,
    {
        self.hosts_max
    }

    /// The interval between pings, in milliseconds.
    pub fn ping_ms(&self) -> (ms: u64)
        ensures
            ms == self@.ping_ms,
    {
        self.ping_ms
    }

    /// The delay before the first ping, in milliseconds.
    pub fn ping_initial_ms(&self) -> (ms: u64)
        ensures
            ms == self@.ping_initial_ms,
    {
        self.ping_initial_ms
    }

    /// After how many unanswered pings a host is dropped.
    pub fn host_drop_pings(&self) -> (n: u64)
        ensures
            n == self@.host_drop_pings,
    {
        self.host_drop_pings
    }

    /// The host pings are sent to, if one was set; it holds no NUL.
    pub fn send_host(&self) -> (h: &Option<String>)
        ensures
            opt_view(*h) == self@.send_host,
            h matches Some(t) ==> !chars_have_nul(t@),
    {
        proof {
            use_type_invariant(self);
        }
        &self.send_host
    }
}

impl Default for DiscoveryServiceOptions {
    fn default() -> (o: Self)
        ensures
            o@ == default_service_options(),
    {
        Self::new()
    }
}

} // verus!
