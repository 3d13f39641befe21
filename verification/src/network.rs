//! The network orchestrator: it turns an access-point configuration into
//! the plan a running node executes — a static IPv4 configuration, a seeded
//! IP stack, a supervised wireless link and a supervised DHCP lease
//! service — and it owns the state machines that keep the link and the
//! DHCP service alive under transient failures.
//!
//! The machines decide; the surrounding tasks perform the radio calls,
//! socket operations and waits they are directed to, and hand the outcome
//! back as the next event.

use vstd::prelude::*;

use crate::ip::{Ipv4Address, Ipv4Cidr};
use crate::ssid::Ssid;

verus! {

/// Seconds the link supervisor waits after an access-point stop before it
/// re-attempts configuration and start.
pub const RESTART_BACKOFF_SECS: u64 = 5;

/// Seconds the DHCP task waits after an iteration before the next one.
pub const DHCP_RETRY_SECS: u64 = 3;

/// How many client stations the DHCP lease table can hold.
pub const DHCP_LEASE_CAPACITY: usize = 64;

/// Size in bytes of the DHCP transaction buffer.
pub const DHCP_BUFFER_LEN: usize = 1500;

/// Relies on edge_dhcp::io::DEFAULT_SERVER_PORT: the standard UDP port a
/// DHCP server listens on.
#[verifier::external_body]
pub fn dhcp_server_port() -> (port: u16)
    ensures
        port == 67,
{
    edge_dhcp::io::DEFAULT_SERVER_PORT
}

/// The wireless interface configuration: an access point with the given
/// network name and the node's own address with its subnet.
pub enum WifiConfig {
    Ap { ssid: Ssid, ip: Ipv4Cidr },
}

impl WifiConfig {
    /// The name and the address block are each well-formed.
    pub open spec fn wf(&self) -> bool {
        self matches WifiConfig::Ap { ssid, ip } && ssid.wf() && ip.wf()
    }
}

/// The wireless link as the supervisor sees it.
#[derive(Clone, Copy, Debug, PartialEq, Eq, Structural)]
pub enum LinkState {
    Stopped,
    Starting,
    Started,
}

/// What the radio controller or the caller reports to the link supervisor.
#[derive(Clone, Copy, Debug, PartialEq, Eq, Structural)]
pub enum LinkEvent {
    /// The orchestrator asks for the access point to come up.
    StartRequested,
    /// The controller reports the link active.
    StartSucceeded,
    /// The controller refused configuration or start: a structural fault.
    StartFailed,
    /// The controller reports that the access point stopped.
    ApStop,
}

/// What the supervising task is directed to do next.
#[derive(Clone, Copy, Debug, PartialEq, Eq, Structural)]
pub enum LinkAction {
    /// Keep waiting for the next event.
    Idle,
    /// Wait `delay_secs`, then apply the access-point configuration and
    /// issue an asynchronous start request.
    ConfigureAndStart { delay_secs: u64 },
    /// Surface a structural radio fault to the orchestrator's caller; the
    /// network subsystem cannot usefully continue.
    ReportFatal,
}

/// The link supervision rule: one transition of the state machine.
///
/// From `Stopped`, a start request begins configuration at once. A
/// successful start reaches `Started`. A stop event from `Started` goes
/// back to configuration, but only after the fixed back-off. A failed
/// start is structural and fatal. Everything else leaves the state alone.
pub open spec fn link_next_spec(s: LinkState, e: LinkEvent) -> (LinkState, LinkAction) {
    match (s, e) {
        (LinkState::Stopped, LinkEvent::StartRequested) => (
            LinkState::Starting,
            (LinkAction::ConfigureAndStart { delay_secs: 0 }),
        ),
        (LinkState::Starting, LinkEvent::StartSucceeded) => (LinkState::Started, LinkAction::Idle),
        (LinkState::Starting, LinkEvent::StartFailed) => (
            LinkState::Stopped,
            LinkAction::ReportFatal,
        ),
        (LinkState::Started, LinkEvent::ApStop) => (
            LinkState::Starting,
            (LinkAction::ConfigureAndStart { delay_secs: RESTART_BACKOFF_SECS }),
        ),
        (s, _) => (s, LinkAction::Idle),
    }
}

/// The state machine that keeps the access point up. It runs for the life
/// of the process: no transition ends the supervision.
pub struct LinkSupervisor {
    state: LinkState,
}

impl LinkSupervisor {
    /// The supervised link's current state.
    pub closed spec fn state_spec(&self) -> LinkState {
        self.state
    }

    /// A fresh supervisor: nothing started yet.
    pub fn new() -> (r: Self)
        ensures
            r.state_spec() is Stopped,
    {
        LinkSupervisor { state: LinkState::Stopped }
    }

    /// Observe the current state.
    pub fn state(&self) -> (s: LinkState)
        ensures
            s == self.state_spec(),
    {
        self.state
    }

    /// Take one event and answer with the action the task must perform
    /// next, moving the machine as `link_next_spec` says.
    pub fn step(&mut self, e: LinkEvent) -> (a: LinkAction)
        ensures
            (final(self).state_spec(), a) == link_next_spec(old(self).state_spec(), e),
    {
        let (next, action) = link_next(self.state, e);
        self.state = next;
        action
    }
}

/// One transition of the link supervision rule, executably.
pub fn link_next(s: LinkState, e: LinkEvent) -> (r: (LinkState, LinkAction))
    ensures
        r == link_next_spec(s, e),
{
    match (s, e) {
        (LinkState::Stopped, LinkEvent::StartRequested) => (
            LinkState::Starting,
            LinkAction::ConfigureAndStart { delay_secs: 0 },
        ),
        (LinkState::Starting, LinkEvent::StartSucceeded) => (LinkState::Started, LinkAction::Idle),
        (LinkState::Starting, LinkEvent::StartFailed) => (
            LinkState::Stopped,
            LinkAction::ReportFatal,
        ),
        (LinkState::Started, LinkEvent::ApStop) => (
            LinkState::Starting,
            LinkAction::ConfigureAndStart { delay_secs: RESTART_BACKOFF_SECS },
        ),
        (s, _) => (s, LinkAction::Idle),
    }
}

/// The link supervision law: a start request from `Stopped` begins
/// configuration at once; a successful start reaches `Started`; an
/// access-point stop re-enters configuration only with at least the fixed
/// five-second back-off; the machine reports `Started` only on the
/// controller's successful start; and no event stops the supervision —
/// every transition leaves the machine ready for the next event.
pub proof fn lemma_link_supervision(s: LinkState, e: LinkEvent)
    ensures
        ({
            let (s2, a) = link_next_spec(s, e);
            &&& (s is Stopped && e is StartRequested ==> s2 is Starting && a matches
                LinkAction::ConfigureAndStart { delay_secs })
            &&& (s is Starting && e is StartSucceeded ==> s2 is Started)
            &&& (s is Started && e is ApStop ==> s2 is Starting && (a matches
                LinkAction::ConfigureAndStart { delay_secs } && delay_secs >= 5))
            &&& (s is Started ==> (a matches LinkAction::ConfigureAndStart { delay_secs }
                ==> delay_secs >= 5))
            &&& (s2 is Started ==> s is Started || e is StartSucceeded)
        }),
{
}

/// What the DHCP task is directed to do next. Every directive continues
/// the loop: there is no way out of it.
#[derive(Clone, Copy, Debug, PartialEq, Eq, Structural)]
pub enum DhcpStep {
    /// Wait `delay_secs`, then run one DHCP server iteration over the
    /// bound socket, logging a warning first if asked to.
    Serve { log_warning: bool, delay_secs: u64 },
    /// Wait `delay_secs`, then attempt the UDP bind again, logging a
    /// warning first if asked to.
    Rebind { log_warning: bool, delay_secs: u64 },
}

/// What follows an attempt to bind the DHCP server's UDP endpoint: serve
/// at once on success; on failure, log and try the bind again after the
/// fixed delay.
pub open spec fn dhcp_after_bind_spec(bound: bool) -> DhcpStep {
    if bound {
        DhcpStep::Serve { log_warning: false, delay_secs: 0 }
    } else {
        DhcpStep::Rebind { log_warning: true, delay_secs: DHCP_RETRY_SECS }
    }
}

/// What follows one server iteration over the bound socket: another
/// iteration after the fixed delay, with a warning logged first when the
/// iteration ended in a protocol error. Lease service availability takes
/// priority over crash-fast semantics: an error never ends the task.
pub open spec fn dhcp_after_serve_spec(served: bool) -> DhcpStep {
    DhcpStep::Serve { log_warning: !served, delay_secs: DHCP_RETRY_SECS }
}

/// Decide what the DHCP task does after a bind attempt.
pub fn dhcp_after_bind(bound: bool) -> (d: DhcpStep)
    ensures
        d == dhcp_after_bind_spec(bound),
{
    if bound {
        DhcpStep::Serve { log_warning: false, delay_secs: 0 }
    } else {
        DhcpStep::Rebind { log_warning: true, delay_secs: DHCP_RETRY_SECS }
    }
}

/// Decide what the DHCP task does after a server iteration.
pub fn dhcp_after_serve(served: bool) -> (d: DhcpStep)
    ensures
        d == dhcp_after_serve_spec(served),
{
    DhcpStep::Serve { log_warning: !served, delay_secs: DHCP_RETRY_SECS }
}

/// The DHCP supervision law: a failed bind or a failed iteration is logged
/// and retried after at least the fixed three-second delay, never
/// surfaced; serving begins exactly when the bind succeeded; a successful
/// iteration is followed by another; and every directive continues the
/// loop, so the task never exits.
pub proof fn lemma_dhcp_supervision(bound: bool, served: bool)
    ensures
        !bound ==> (dhcp_after_bind_spec(bound) matches DhcpStep::Rebind { log_warning, delay_secs }
            && log_warning && delay_secs >= 3),
        dhcp_after_bind_spec(bound) is Serve <==> bound,
        dhcp_after_serve_spec(served) matches DhcpStep::Serve { log_warning, delay_secs }
            && delay_secs >= 3 && (log_warning <==> !served),
{
}

/// The static IPv4 configuration the IP stack is brought up with: the
/// node's own address block, no gateway, no DNS servers — this node serves
/// addresses, it does not obtain them.
pub struct StaticIpPlan {
    pub address: Ipv4Cidr,
    pub gateway: Option<Ipv4Address>,
    pub dns_servers: Vec<Ipv4Address>,
}

/// Everything the DHCP server task is started with: leases rooted at the
/// node's own address, the well-known server port bound on the unspecified
/// address, a fixed-capacity lease table and a fixed transaction buffer,
/// no gateway and no DNS advertised.
pub struct DhcpServerPlan {
    pub server_ip: Ipv4Address,
    pub bind_address: Ipv4Address,
    pub port: u16,
    pub lease_capacity: usize,
    pub buffer_len: usize,
    pub gateway: Option<Ipv4Address>,
    pub dns: Option<Ipv4Address>,
}

/// The orchestrator's whole output: what the surrounding tasks execute.
pub struct NetworkPlan {
    pub ssid: Ssid,
    pub ip: StaticIpPlan,
    pub seed: u64,
    pub dhcp: DhcpServerPlan,
    pub link: LinkSupervisor,
}

/// Concatenate two 32-bit hardware random values into the 64-bit seed the
/// IP stack is started with: the first value fills the high half.
pub fn stack_seed(hi: u32, lo: u32) -> (seed: u64)
    ensures
        seed == hi as int * 0x1_0000_0000 + lo as int,
{
    let seed: u64 = ((hi as u64) << 32u64) | (lo as u64);
    proof {
        assert(((hi as u64) << 32u64) | (lo as u64) == hi as u64 * 0x1_0000_0000 + lo as u64)
            by (bit_vector);
    }
    seed
}

/// The general network service interface: it owns the link supervisor
/// until the plan hands it to the setup task.
pub struct Network {
    link: LinkSupervisor,
}

impl Network {
    /// A new network instance: nothing started.
    pub fn new() -> (r: Self)
        ensures
            r.link_state() is Stopped,
    {
        Network { link: LinkSupervisor::new() }
    }

    /// The supervised link's current state.
    pub closed spec fn link_state(&self) -> LinkState {
        self.link.state_spec()
    }

    /// Lay out the background network services for the given access-point
    /// configuration: the static address exactly as configured, no gateway
    /// and no DNS, the stack seeded from the two hardware random words,
    /// and the DHCP service rooted at the configured address on the
    /// standard server port over the unspecified address.
    pub fn start_wifi(self, config: WifiConfig, seed_hi: u32, seed_lo: u32) -> (plan: NetworkPlan)
        requires
            config.wf(),
        ensures
            config matches WifiConfig::Ap { ssid, ip } ==> {
                &&& plan.ssid == ssid
                &&& plan.ip.address == ip
                &&& plan.ip.gateway is None
                &&& plan.ip.dns_servers@.len() == 0
                &&& plan.seed == seed_hi as int * 0x1_0000_0000 + seed_lo as int
                &&& plan.dhcp.server_ip == ip.address
                &&& plan.dhcp.bind_address.bits == 0
                &&& plan.dhcp.port == 67
                &&& plan.dhcp.lease_capacity == 64
                &&& plan.dhcp.buffer_len == 1500
                &&& plan.dhcp.gateway is None
                &&& plan.dhcp.dns is None
                &&& plan.link.state_spec() == self.link_state()
            },
    {
        let WifiConfig::Ap { ssid, ip } = config;
        let seed = stack_seed(seed_hi, seed_lo);
        let ip_plan = StaticIpPlan { address: ip, gateway: None, dns_servers: Vec::new() };
        let dhcp = DhcpServerPlan {
            server_ip: ip.address,
            bind_address: Ipv4Address::unspecified(),
            port: dhcp_server_port(),
            lease_capacity: DHCP_LEASE_CAPACITY,
            buffer_len: DHCP_BUFFER_LEN,
            gateway: None,
            dns: None,
        };
        NetworkPlan { ssid, ip: ip_plan, seed, dhcp, link: self.link }
    }
}

} // verus!
