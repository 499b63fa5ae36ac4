use mbtunnel::app_config::TunnelMode;
use mbtunnel::tunnel::{
    append_log, append_log_at, detect_port, mode_text, port_text, reply_is_http3, status_text,
    tunnel_command,
    LogType, StopOutcome, TunnelState, TunnelStatus, WgConfig,
};
use mbtunnel::update::Binary;

#[test]
fn log_line_layout() {
    let mut log = Vec::new();
    append_log_at(&mut log, LogType::Info, "Starting Tunnel...", "2024-01-01T00:00:00.000000Z");
    let expected = "\x1b[90m2024-01-01T00:00:00.000000Z\x1b[39m  \x1b[90mmbtunnel:\x1b[39m \x1b[32mINFO\x1b[39m Starting Tunnel...\n";
    assert_eq!(String::from_utf8(log.clone()).unwrap(), expected);
    log.extend_from_slice(b"tool output without newline");
    append_log_at(&mut log, LogType::Error, "boom", "T");
    let text = String::from_utf8(log).unwrap();
    assert!(text.ends_with("tool output without newline\n\x1b[90mT\x1b[39m  \x1b[90mmbtunnel:\x1b[39m \x1b[31mERROR\x1b[39m boom\n"));
}

#[test]
fn log_line_with_current_time() {
    let mut log = b"x".to_vec();
    append_log(&mut log, LogType::Info, "hello");
    let text = String::from_utf8(log).unwrap();
    assert!(text.starts_with("x\n\x1b[90m"));
    assert!(text.ends_with(" \x1b[32mINFO\x1b[39m hello\n"));
}

#[test]
fn port_found_in_tunnel_output() {
    let log = b"old 127.0.0.1:1111\nstarting\nlistening on 127.0.0.1:51820 (udp)\nnext 127.0.0.1:2222\n".to_vec();
    assert_eq!(detect_port(&log, 0), Some(1111));
    let offset = log.iter().position(|&b| b == b'\n').unwrap() + 1;
    assert_eq!(detect_port(&log, offset), Some(51820));
    assert_eq!(detect_port(&log, log.len()), None);
}

#[test]
fn port_detection_skips_unusable_lines() {
    let log = b"127.0.0.1:99999\r\n\xff\xfe bad bytes 127.0.0.1:4000\r\n".to_vec();
    assert_eq!(detect_port(&log, 0), Some(4000));
    assert_eq!(detect_port(b"127.0.0.1:", 0), None);
    assert_eq!(detect_port(b"127x0x0x1:80", 0), None);
}

#[test]
fn start_and_detect_port() {
    let mut st = TunnelState::new();
    assert_eq!(st.status, TunnelStatus::Stopped);
    assert_eq!(st.mode, TunnelMode::Auto);
    st.log.extend_from_slice(b"previous run 127.0.0.1:1\n");
    let offset = st.begin_start(TunnelMode::Auto);
    assert_eq!(offset, 25);
    assert_eq!(st.status, TunnelStatus::DetectingMode);
    st.note_udp_probe();
    assert_eq!(st.set_probed_mode(false), TunnelMode::TCP);
    st.begin_port_detection();
    assert_eq!(st.status, TunnelStatus::DetectingPort);
    st.poll_port(offset);
    assert_eq!(st.port, None);
    assert_eq!(st.status, TunnelStatus::DetectingPort);
    st.log.extend_from_slice(b"Starting udp server on 127.0.0.1:40001\n");
    st.poll_port(offset);
    assert_eq!(st.port, Some(40001));
    assert_eq!(st.status, TunnelStatus::Running);
    assert_eq!(port_text(&st.status, st.port), "40001");
}

#[test]
fn stop_outcomes() {
    let mut st = TunnelState::new();
    st.port = Some(5);
    st.begin_stop();
    assert_eq!(st.status, TunnelStatus::Stopping);
    st.finish_stop(StopOutcome::NoProcess);
    assert_eq!(st.status, TunnelStatus::Stopped);
    assert_eq!(st.port, None);

    st.port = Some(5);
    st.finish_stop(StopOutcome::Ended { kill_error: Some("denied".into()), wait_error: Some("x".into()) });
    assert_eq!(st.status, TunnelStatus::Failed("Kill Failed".into()));
    assert!(String::from_utf8_lossy(&st.log).ends_with(" Kill Failed: denied\n"));

    st.finish_stop(StopOutcome::Ended { kill_error: None, wait_error: Some("gone".into()) });
    assert_eq!(st.status, TunnelStatus::Failed("Wait Failed".into()));

    st.finish_stop(StopOutcome::Ended { kill_error: Some("denied".into()), wait_error: None });
    assert_eq!(st.status, TunnelStatus::Stopped);
}

#[test]
fn exit_and_failure_are_logged() {
    let mut st = TunnelState::new();
    st.child_exited(Some(-3));
    assert_eq!(st.status, TunnelStatus::Exited(Some(-3)));
    assert!(String::from_utf8_lossy(&st.log).ends_with(" Tunnel Exited with code -3\n"));
    st.child_exited(None);
    assert!(String::from_utf8_lossy(&st.log).ends_with(" Tunnel Exited with code \n"));
    st.worker_failed("DNS lookup timed out".to_string());
    assert_eq!(st.status, TunnelStatus::Failed("DNS lookup timed out".into()));
}

#[test]
fn tunnel_panel_texts() {
    assert_eq!(status_text(&TunnelStatus::DetectingMode), "Starting");
    assert_eq!(status_text(&TunnelStatus::DetectingPort), "Starting");
    assert_eq!(status_text(&TunnelStatus::Failed("x".into())), "Failed to Start x");
    assert_eq!(status_text(&TunnelStatus::Exited(Some(1))), "Exited 1");
    assert_eq!(status_text(&TunnelStatus::Exited(None)), "Exited ");
    assert_eq!(status_text(&TunnelStatus::Running), "Running");
    assert_eq!(status_text(&TunnelStatus::Stopping), "Stopping");
    assert_eq!(status_text(&TunnelStatus::Stopped), "Stopped");
    assert_eq!(mode_text(TunnelMode::Auto), "Detecting");
    assert_eq!(mode_text(TunnelMode::UDP), "UDP");
    assert_eq!(port_text(&TunnelStatus::Stopped, Some(3)), "");
    assert_eq!(port_text(&TunnelStatus::Running, None), "Detecting");
}

#[test]
fn tunnel_commands() {
    let (b, args) = tunnel_command(TunnelMode::UDP, "203.0.113.7", "vpn.example");
    assert_eq!(b, Binary::Udpproxy);
    assert_eq!(args, vec!["-b", "127.0.0.1", "-l", "0", "-h", "203.0.113.7", "-r", "443", "-d"]);
    let (b, args) = tunnel_command(TunnelMode::TCP, "203.0.113.7", "vpn.example");
    assert_eq!(b, Binary::Wstunnel);
    assert_eq!(
        args,
        vec![
            "client",
            "--http-upgrade-path-prefix",
            "/ws",
            "wss://vpn.example:443",
            "-L",
            "udp://127.0.0.1:0:127.0.0.1:51280?timeout_sec=0"
        ]
    );
}

#[test]
fn empty_wireguard_config() {
    let c = WgConfig::new();
    assert!(c.private_key.is_empty() && c.server_public_key.is_empty());
    assert!(c.ipv4_address.is_empty() && c.allowed_ips.is_empty());
    assert_eq!(c.endpoint_port, 0);
    assert_eq!(c.mtu, None);
}

#[test]
fn tunnel_output_goes_into_the_log() {
    let mut st = TunnelState::new();
    let offset = st.begin_start(TunnelMode::TCP);
    let before = st.log.clone();
    st.append_output(b"listening on 127.0.0.1:41234\n");
    assert!(st.log.starts_with(&before));
    assert_eq!(&st.log[before.len()..], b"listening on 127.0.0.1:41234\n");
    st.begin_port_detection();
    st.poll_port(offset);
    assert_eq!(st.port, Some(41234));
    assert_eq!(st.status, TunnelStatus::Running);
}

#[test]
fn http3_probe_verdict() {
    assert!(reply_is_http3("fl=1\nhttp=http/3\nloc=DE\n"));
    assert!(!reply_is_http3("fl=1\nhttp=http/2\n"));
}
