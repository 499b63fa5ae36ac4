//! The decisions of the VPN panel: what "Start VPN" and "Stop VPN" lead
//! to, and when a VPN that waits for the tunnel is brought up.  The window
//! performs each step and reports back.
use vstd::prelude::*;

use crate::tunnel::{running_has_port, TunnelStatus};

verus! {

/// Where the VPN connection is.
#[derive(Clone, Copy, PartialEq, Eq, Structural, Debug)]
pub enum VpnPhase {
    /// No WireGuard interface and nothing pending.
    Off,
    /// The configuration is fetched and WireGuard starts once the tunnel
    /// runs.
    WaitingForTunnel,
    /// The WireGuard interface is up.
    On,
}

/// What the window does next.
#[derive(Clone, Copy, PartialEq, Eq, Structural, Debug)]
pub enum VpnStep {
    /// Tell the user to select a key; nothing starts.
    SelectKeyFirst,
    /// Fetch the selected key's configuration, after warning that its
    /// subscription is inactive when `warn_inactive`.
    FetchConfig { warn_inactive: bool },
    /// Bring WireGuard up towards the tunnel's local port.
    StartWireguard { port: u16 },
    /// Start the tunnel in the configured mode and wait for it.
    StartTunnelAndWait,
    /// Wait for the tunnel that is starting already.
    Wait,
    /// Nothing to do.
    Idle,
}

/// "Start VPN" was pressed (the button is only offered while the VPN is
/// off): without a selected key nothing starts; otherwise the configuration
/// is fetched, with a warning first when the key's subscription is inactive.
pub fn on_start_pressed(key_selected: bool, key_active: bool) -> (res: VpnStep)
    ensures
        !key_selected ==> res == VpnStep::SelectKeyFirst,
        key_selected ==> res == (VpnStep::FetchConfig { warn_inactive: !key_active }),
{
    if !key_selected {
        VpnStep::SelectKeyFirst
    } else {
        VpnStep::FetchConfig { warn_inactive: !key_active }
    }
}

/// The configuration was fetched: with the tunnel running, WireGuard comes
/// up at once on its port; with the tunnel stopped, the tunnel is started
/// and waited for; while it starts or stops, it is waited for.
pub fn on_config_fetched(status: &TunnelStatus, port: Option<u16>) -> (res: (VpnPhase, VpnStep))
    requires
        running_has_port(*status, port),
    ensures
        *status == TunnelStatus::Running ==> res == (VpnPhase::Off, VpnStep::StartWireguard { port: port->0 }),
        *status == TunnelStatus::Stopped ==> res == (VpnPhase::WaitingForTunnel, VpnStep::StartTunnelAndWait),
        *status != TunnelStatus::Running && *status != TunnelStatus::Stopped ==> res == (
            VpnPhase::WaitingForTunnel,
            VpnStep::Wait,
        ),
{
    match status {
        TunnelStatus::Running => match port {
            Some(p) => (VpnPhase::Off, VpnStep::StartWireguard { port: p }),
            None => (VpnPhase::Off, VpnStep::Idle),
        },
        TunnelStatus::Stopped => (VpnPhase::WaitingForTunnel, VpnStep::StartTunnelAndWait),
        _ => (VpnPhase::WaitingForTunnel, VpnStep::Wait),
    }
}

/// Each frame: a VPN waiting for the tunnel brings WireGuard up on the
/// tunnel's port once the tunnel runs; otherwise nothing happens.  A failed
/// tunnel does not end the wait: only "Stop VPN" does.
pub fn on_poll(phase: VpnPhase, status: &TunnelStatus, port: Option<u16>) -> (res: VpnStep)
    requires
        running_has_port(*status, port),
    ensures
        phase == VpnPhase::WaitingForTunnel && *status == TunnelStatus::Running ==> res
            == (VpnStep::StartWireguard { port: port->0 }),
        !(phase == VpnPhase::WaitingForTunnel && *status == TunnelStatus::Running) ==> res == VpnStep::Idle,
{
    match phase {
        VpnPhase::WaitingForTunnel => match status {
            TunnelStatus::Running => match port {
                Some(p) => VpnStep::StartWireguard { port: p },
                None => VpnStep::Idle,
            },
            _ => VpnStep::Idle,
        },
        _ => VpnStep::Idle,
    }
}

/// WireGuard was brought up (`ok`) or failed to come up.  Gives the new
/// phase, and whether the tunnel must be stopped: after a failure that
/// ends a wait for the tunnel, the tunnel started for it is stopped too.
pub fn on_wireguard_started(phase: VpnPhase, ok: bool) -> (res: (VpnPhase, bool))
    ensures
        ok ==> res == (VpnPhase::On, false),
        !ok ==> res == (VpnPhase::Off, phase == VpnPhase::WaitingForTunnel),
{
    if ok {
        (VpnPhase::On, false)
    } else {
        (VpnPhase::Off, phase == VpnPhase::WaitingForTunnel)
    }
}

/// "Stop VPN" was pressed: the tunnel is stopped, WireGuard too when it is
/// up (whether that succeeds or not), and the VPN is off.  Gives the new
/// phase and whether WireGuard must be stopped.
pub fn on_stop_pressed(phase: VpnPhase) -> (res: (VpnPhase, bool))
    ensures
        res == (VpnPhase::Off, phase == VpnPhase::On),
{
    (VpnPhase::Off, phase == VpnPhase::On)
}

} // verus!
