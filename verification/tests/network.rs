//! The network orchestrator: link supervision, DHCP supervision, and the
//! access-point scenario.

use rohi::ip::{Ipv4Address, Ipv4Cidr};
use rohi::network::{
    dhcp_after_bind, dhcp_after_serve, dhcp_server_port, link_next, stack_seed, DhcpStep,
    LinkAction, LinkEvent, LinkState, LinkSupervisor, Network, WifiConfig,
};
use rohi::ssid::Ssid;

#[test]
fn start_reaches_started() {
    let mut link = LinkSupervisor::new();
    assert_eq!(link.state(), LinkState::Stopped);
    let action = link.step(LinkEvent::StartRequested);
    assert_eq!(link.state(), LinkState::Starting);
    assert_eq!(action, LinkAction::ConfigureAndStart { delay_secs: 0 });
    let action = link.step(LinkEvent::StartSucceeded);
    assert_eq!(link.state(), LinkState::Started);
    assert_eq!(action, LinkAction::Idle);
}

#[test]
fn ap_stop_backs_off_at_least_five_seconds() {
    let mut link = LinkSupervisor::new();
    link.step(LinkEvent::StartRequested);
    link.step(LinkEvent::StartSucceeded);
    let action = link.step(LinkEvent::ApStop);
    assert_eq!(link.state(), LinkState::Starting);
    match action {
        LinkAction::ConfigureAndStart { delay_secs } => assert!(delay_secs >= 5),
        other => panic!("expected a delayed restart, got {:?}", other),
    }
}

#[test]
fn start_failure_is_fatal() {
    let (state, action) = link_next(LinkState::Starting, LinkEvent::StartFailed);
    assert_eq!(state, LinkState::Stopped);
    assert_eq!(action, LinkAction::ReportFatal);
}

#[test]
fn unrelated_events_are_idle() {
    let (state, action) = link_next(LinkState::Stopped, LinkEvent::ApStop);
    assert_eq!(state, LinkState::Stopped);
    assert_eq!(action, LinkAction::Idle);
    let (state, action) = link_next(LinkState::Started, LinkEvent::StartRequested);
    assert_eq!(state, LinkState::Started);
    assert_eq!(action, LinkAction::Idle);
}

#[test]
fn dhcp_bind_error_retries_after_three_seconds() {
    match dhcp_after_bind(false) {
        DhcpStep::Rebind { log_warning, delay_secs } => {
            assert!(log_warning);
            assert!(delay_secs >= 3);
        }
        other => panic!("expected another bind attempt, got {:?}", other),
    }
}

#[test]
fn dhcp_serve_error_retries_after_three_seconds() {
    match dhcp_after_serve(false) {
        DhcpStep::Serve { log_warning, delay_secs } => {
            assert!(log_warning);
            assert!(delay_secs >= 3);
        }
        other => panic!("expected another iteration, got {:?}", other),
    }
}

#[test]
fn dhcp_loop_never_terminates() {
    // Drive the task's decision rule through many iterations with
    // alternating outcomes: every directive continues the loop.
    let mut bound = false;
    for i in 0..100 {
        let step = if bound {
            dhcp_after_serve(i % 3 != 0)
        } else {
            dhcp_after_bind(i % 2 == 0)
        };
        match step {
            DhcpStep::Serve { delay_secs, .. } => {
                bound = true;
                assert!(delay_secs == 0 || delay_secs >= 3);
            }
            DhcpStep::Rebind { delay_secs, .. } => {
                bound = false;
                assert!(delay_secs >= 3);
            }
        }
    }
}

#[test]
fn dhcp_successful_iteration_continues_quietly() {
    assert_eq!(
        dhcp_after_serve(true),
        DhcpStep::Serve { log_warning: false, delay_secs: 3 }
    );
    assert_eq!(
        dhcp_after_bind(true),
        DhcpStep::Serve { log_warning: false, delay_secs: 0 }
    );
}

#[test]
fn seed_concatenates_hardware_randoms() {
    assert_eq!(stack_seed(0xdead_beef, 0x0123_4567), 0xdead_beef_0123_4567);
    assert_eq!(stack_seed(0, 7), 7);
    assert_eq!(stack_seed(1, 0), 1 << 32);
}

#[test]
fn server_port_matches_dhcp_crate() {
    assert_eq!(dhcp_server_port(), edge_dhcp::io::DEFAULT_SERVER_PORT);
    assert_eq!(dhcp_server_port(), 67);
}

#[test]
fn access_point_scenario() {
    let ssid = Ssid::from_bytes(&b"hello_altruist".to_vec()).unwrap();
    let ip = Ipv4Cidr::new(Ipv4Address::new(192, 168, 42, 1), 24);
    let network = Network::new();
    let plan = network.start_wifi(WifiConfig::Ap { ssid, ip }, 0xaaaa_bbbb, 0xcccc_dddd);

    // The stack's configured address is exactly 192.168.42.1/24.
    assert_eq!(plan.ip.address.address.octets(), [192, 168, 42, 1]);
    assert_eq!(plan.ip.address.prefix_len, 24);
    assert_eq!(plan.ip.gateway, None);
    assert!(plan.ip.dns_servers.is_empty());

    // The DHCP server listens on the unspecified address at the standard
    // server port, rooted at the node's own address.
    assert_eq!(plan.dhcp.bind_address, Ipv4Address::unspecified());
    assert_eq!(plan.dhcp.port, 67);
    assert_eq!(plan.dhcp.server_ip, Ipv4Address::new(192, 168, 42, 1));
    assert_eq!(plan.dhcp.lease_capacity, 64);
    assert_eq!(plan.dhcp.buffer_len, 1500);
    assert_eq!(plan.dhcp.gateway, None);
    assert_eq!(plan.dhcp.dns, None);

    // The name travels unchanged, and the seed is the two words joined.
    assert_eq!(plan.ssid.to_bytes(), b"hello_altruist".to_vec());
    assert_eq!(plan.seed, 0xaaaa_bbbb_cccc_dddd);

    // Ready to lease addresses within that /24, and only there.
    assert!(plan.ip.address.contains(&Ipv4Address::new(192, 168, 42, 200)));
    assert!(!plan.ip.address.contains(&Ipv4Address::new(192, 168, 43, 1)));

    // The link supervisor is handed over still stopped.
    assert_eq!(plan.link.state(), LinkState::Stopped);
}
