use mbtunnel::tunnel::TunnelStatus;
use mbtunnel::vpn::{
    on_config_fetched, on_poll, on_start_pressed, on_stop_pressed, on_wireguard_started, VpnPhase,
    VpnStep,
};

#[test]
fn start_needs_a_selected_key() {
    assert_eq!(on_start_pressed(false, true), VpnStep::SelectKeyFirst);
    assert_eq!(on_start_pressed(true, true), VpnStep::FetchConfig { warn_inactive: false });
    assert_eq!(on_start_pressed(true, false), VpnStep::FetchConfig { warn_inactive: true });
}

#[test]
fn config_fetched_depends_on_the_tunnel() {
    assert_eq!(
        on_config_fetched(&TunnelStatus::Running, Some(40123)),
        (VpnPhase::Off, VpnStep::StartWireguard { port: 40123 })
    );
    assert_eq!(
        on_config_fetched(&TunnelStatus::Stopped, None),
        (VpnPhase::WaitingForTunnel, VpnStep::StartTunnelAndWait)
    );
    assert_eq!(
        on_config_fetched(&TunnelStatus::DetectingPort, None),
        (VpnPhase::WaitingForTunnel, VpnStep::Wait)
    );
    assert_eq!(
        on_config_fetched(&TunnelStatus::Failed("x".to_string()), None),
        (VpnPhase::WaitingForTunnel, VpnStep::Wait)
    );
}

#[test]
fn waiting_ends_when_the_tunnel_runs() {
    assert_eq!(
        on_poll(VpnPhase::WaitingForTunnel, &TunnelStatus::Running, Some(5000)),
        VpnStep::StartWireguard { port: 5000 }
    );
    assert_eq!(on_poll(VpnPhase::WaitingForTunnel, &TunnelStatus::DetectingMode, None), VpnStep::Idle);
    assert_eq!(on_poll(VpnPhase::WaitingForTunnel, &TunnelStatus::Exited(Some(1)), None), VpnStep::Idle);
    assert_eq!(on_poll(VpnPhase::Off, &TunnelStatus::Running, Some(5000)), VpnStep::Idle);
    assert_eq!(on_poll(VpnPhase::On, &TunnelStatus::Running, Some(5000)), VpnStep::Idle);
}

#[test]
fn wireguard_outcome() {
    assert_eq!(on_wireguard_started(VpnPhase::Off, true), (VpnPhase::On, false));
    assert_eq!(on_wireguard_started(VpnPhase::WaitingForTunnel, true), (VpnPhase::On, false));
    assert_eq!(on_wireguard_started(VpnPhase::Off, false), (VpnPhase::Off, false));
    assert_eq!(on_wireguard_started(VpnPhase::WaitingForTunnel, false), (VpnPhase::Off, true));
}

#[test]
fn stop_always_turns_the_vpn_off() {
    assert_eq!(on_stop_pressed(VpnPhase::On), (VpnPhase::Off, true));
    assert_eq!(on_stop_pressed(VpnPhase::WaitingForTunnel), (VpnPhase::Off, false));
    assert_eq!(on_stop_pressed(VpnPhase::Off), (VpnPhase::Off, false));
}
