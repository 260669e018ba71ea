//! The settings that the core consumes, and where the server listens.

pub mod defaults;

use crate::room_version::RoomVersion;
use vstd::prelude::*;

verus! {

/// Where the TLS certificate chain and key are, and whether plain HTTP is
/// served beside HTTPS.
#[derive(Clone, Debug)]
pub struct TlsConfig {
    pub certs: String,
    pub key: String,
    /// Whether to accept both HTTP and HTTPS connections (insecure).
    pub dual_protocol: bool,
}

/// What the server publishes under `/.well-known/matrix`.
#[derive(Clone, Debug)]
pub struct WellKnownConfig {
    pub client: Option<String>,
    pub server: Option<String>,
    pub support_page: Option<String>,
    pub support_role: Option<String>,
    pub support_email: Option<String>,
    pub support_mxid: Option<String>,
}

/// An address to listen on.
#[derive(Clone, Copy, Debug, PartialEq, Eq, Structural)]
pub enum IpAddress {
    V4(u8, u8, u8, u8),
    V6(u16, u16, u16, u16, u16, u16, u16, u16),
}

/// One address or several.
#[derive(Clone, Debug)]
pub enum ListeningAddr {
    One(IpAddress),
    Many(Vec<IpAddress>),
}

/// One port or several.
#[derive(Clone, Debug)]
pub enum ListeningPort {
    One(u16),
    Many(Vec<u16>),
}

impl ListeningAddr {
    /// The addresses, in the order given.
    pub open spec fn hosts(&self) -> Seq<IpAddress> {
        match self {
            ListeningAddr::One(a) => seq![*a],
            ListeningAddr::Many(v) => v@,
        }
    }
}

impl ListeningPort {
    /// The ports, in the order given.
    pub open spec fn ports(&self) -> Seq<u16> {
        match self {
            ListeningPort::One(p) => seq![*p],
            ListeningPort::Many(v) => v@,
        }
    }
}

/// The settings that the room-event pipeline reads.
pub struct Config {
    /// The name of this server: the suffix of its user and room ids.
    pub server_name: String,
    pub address: ListeningAddr,
    pub port: ListeningPort,
    pub tls: Option<TlsConfig>,
    /// Whether this server talks to other servers at all.
    pub allow_federation: bool,
    pub allow_registration: bool,
    pub registration_token: Option<String>,
    /// Servers that nobody but an administrator may join rooms of.
    pub forbidden_remote_server_names: Vec<String>,
    /// Whether a user who tries to join a banned room is deactivated.
    pub auto_deactivate_banned_room_attempts: bool,
    /// Whether only administrators may send and receive invites.
    pub block_non_admin_invites: bool,
    /// How many outbound requests may be in flight at once.
    pub max_concurrent_requests: u16,
    pub sender_timeout: u64,
    pub federation_timeout: u64,
    pub well_known_timeout: u64,
    pub request_timeout: u64,
    /// Whether queued events are sent again after a restart.
    pub startup_netburst: bool,
    /// How many of them per destination; negative for all.
    pub startup_netburst_keep: i64,
    pub trusted_servers: Vec<String>,
    pub query_trusted_key_servers_first: bool,
    pub query_trusted_key_servers_first_on_join: bool,
    pub default_room_version: RoomVersion,
    pub allow_unstable_room_versions: bool,
    pub allow_outgoing_presence: bool,
    pub allow_outgoing_read_receipts: bool,
    pub well_known: WellKnownConfig,
}

/// The socket addresses made of `hosts` and `ports`: every host with every
/// port, host by host.
pub open spec fn bind_addrs(hosts: Seq<IpAddress>, ports: Seq<u16>) -> Seq<(IpAddress, u16)> {
    Seq::new(
        hosts.len() * ports.len(),
        |k: int| (hosts[k / (ports.len() as int)], ports[k % (ports.len() as int)]),
    )
}

impl Config {
    /// The addresses to listen on.
    pub fn get_bind_hosts(&self) -> (r: Vec<IpAddress>)
        ensures
            r@ == self.address.hosts(),
    {
        match &self.address {
            ListeningAddr::One(a) => {
                let mut v: Vec<IpAddress> = Vec::new();
                v.push(*a);
                assert(v@ =~= seq![*a]);
                v
            },
            ListeningAddr::Many(list) => {
                let mut v: Vec<IpAddress> = Vec::new();
                let mut i: usize = 0;
                while i < list.len()
                    invariant
                        i <= list.len(),
                        v@ == list@.subrange(0, i as int),
                    decreases list.len() - i,
                {
                    v.push(list[i]);
                    i = i + 1;
                    assert(v@ =~= list@.subrange(0, i as int));
                }
                assert(list@.subrange(0, list.len() as int) =~= list@);
                v
            },
        }
    }

    /// The ports to listen on.
    pub fn get_bind_ports(&self) -> (r: Vec<u16>)
        ensures
            r@ == self.port.ports(),
    {
        match &self.port {
            ListeningPort::One(p) => {
                let mut v: Vec<u16> = Vec::new();
                v.push(*p);
                assert(v@ =~= seq![*p]);
                v
            },
            ListeningPort::Many(list) => {
                let mut v: Vec<u16> = Vec::new();
                let mut i: usize = 0;
                while i < list.len()
                    invariant
                        i <= list.len(),
                        v@ == list@.subrange(0, i as int),
                    decreases list.len() - i,
                {
                    v.push(list[i]);
                    i = i + 1;
                    assert(v@ =~= list@.subrange(0, i as int));
                }
                assert(list@.subrange(0, list.len() as int) =~= list@);
                v
            },
        }
    }

    /// The socket addresses to listen on: every address with every port.
    pub fn get_bind_addrs(&self) -> (r: Vec<(IpAddress, u16)>)
        ensures
            r@ == bind_addrs(self.address.hosts(), self.port.ports()),
    {
        let hosts = self.get_bind_hosts();
        let ports = self.get_bind_ports();
        let mut addrs: Vec<(IpAddress, u16)> = Vec::new();
        let np = ports.len();
        let mut i: usize = 0;
        while i < hosts.len()
            invariant
                i <= hosts.len(),
                np == ports.len(),
                addrs@.len() == i * np,
                forall|k: int|
                    0 <= k < addrs@.len() ==> #[trigger] addrs@[k] == (
                        hosts@[k / (np as int)],
                        ports@[k % (np as int)],
                    ),
            decreases hosts.len() - i,
        {
            let mut j: usize = 0;
            while j < np
                invariant
                    i < hosts.len(),
                    np == ports.len(),
                    j <= np,
                    addrs@.len() == i * np + j,
                    forall|k: int|
                        0 <= k < addrs@.len() ==> #[trigger] addrs@[k] == (
                            hosts@[k / (np as int)],
                            ports@[k % (np as int)],
                        ),
                decreases np - j,
            {
                proof {
                    let k = (i * np + j) as int;
                    assert(k / (np as int) == i && k % (np as int) == j) by (nonlinear_arith)
                        requires
                            k == i * np + j,
                            0 <= j < np,
                            0 <= i,
                    ;
                }
                addrs.push((hosts[i], ports[j]));
                j = j + 1;
            }
            assert((i + 1) * np == i * np + np) by (nonlinear_arith);
            i = i + 1;
        }
        assert(addrs@ =~= bind_addrs(hosts@, ports@));
        addrs
    }
}

/// The addresses to listen on where none is configured: the loopback
/// addresses of IPv4 and IPv6.
pub fn default_address() -> (a: ListeningAddr)
    ensures
        a.hosts() == seq![
            IpAddress::V4(127, 0, 0, 1),
            IpAddress::V6(0, 0, 0, 0, 0, 0, 0, 1),
        ],
{
    let mut list: Vec<IpAddress> = Vec::new();
    list.push(IpAddress::V4(127, 0, 0, 1));
    list.push(IpAddress::V6(0, 0, 0, 0, 0, 0, 0, 1));
    let a = ListeningAddr::Many(list);
    assert(a.hosts() =~= seq![
        IpAddress::V4(127, 0, 0, 1),
        IpAddress::V6(0, 0, 0, 0, 0, 0, 0, 1),
    ]);
    a
}

/// The port to listen on where none is configured.
pub fn default_port() -> (p: ListeningPort)
    ensures
        p.ports() == seq![8008u16],
{
    ListeningPort::One(8008)
}

/// The servers whose word on signing keys is trusted where none is
/// configured.
pub fn default_trusted_servers() -> (servers: Vec<String>)
    ensures
        crate::text::views(servers@) == seq!["matrix.org"@],
{
    let mut servers: Vec<String> = Vec::new();
    servers.push("matrix.org".to_owned());
    assert(crate::text::views(servers@) =~= seq!["matrix.org"@]);
    servers
}

/// The room version of rooms created without a wish.
pub fn default_default_room_version() -> (v: RoomVersion)
    ensures
        v == RoomVersion::V10,
{
    RoomVersion::V10
}

/// The log filter where none is configured: debug logging in a debug build.
pub fn default_log(debug_build: bool) -> (s: String)
    ensures
        s@ == (if debug_build {
            "debug"@
        } else {
            "info"@
        }),
{
    if debug_build {
        "debug".to_owned()
    } else {
        "info".to_owned()
    }
}

} // verus!
