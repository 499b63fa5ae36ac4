use mbtunnel::app_config::{CloseAction, Key, TunnelMode};
use mbtunnel::display::{handshake_text, humanize_bytes, key_input_hint, vpn_state_text};
use mbtunnel::text::decimal_string;

fn float_humanize(bytes: u64) -> String {
    const KB: u64 = 1024;
    const MB: u64 = KB * 1024;
    const GB: u64 = MB * 1024;
    if bytes >= GB {
        format!("{:.2} GB", bytes as f64 / GB as f64)
    } else if bytes >= MB {
        format!("{:.2} MB", bytes as f64 / MB as f64)
    } else if bytes >= KB {
        format!("{:.2} KB", bytes as f64 / KB as f64)
    } else {
        format!("{} B", bytes)
    }
}

#[test]
fn humanize_bytes_exact_values() {
    assert_eq!(humanize_bytes(0), "0 B");
    assert_eq!(humanize_bytes(1023), "1023 B");
    assert_eq!(humanize_bytes(1024), "1.00 KB");
    assert_eq!(humanize_bytes(1536), "1.50 KB");
    assert_eq!(humanize_bytes(1048576), "1.00 MB");
    assert_eq!(humanize_bytes(1073741824), "1.00 GB");
    assert_eq!(humanize_bytes(5 * 1073741824 + 536870912), "5.50 GB");
}

#[test]
fn humanize_bytes_matches_float_formatting() {
    let mut samples: Vec<u64> = vec![
        0, 1, 999, 1023, 1024, 1025, 1152, 1160, 1280, 2047, 2048, 10239, 10240, 1048575, 1048576,
        1179648, 1184890, 1073741823, 1073741824, 1207959552, 1_000_000_000_000,
        (1u64 << 53) - 1, 1u64 << 53, (1u64 << 53) + 1, (1u64 << 53) + 3, (1u64 << 60) + 12345,
        u64::MAX - 1, u64::MAX,
    ];
    let mut x: u64 = 0x9e3779b97f4a7c15;
    for _ in 0..2000 {
        x ^= x << 13;
        x ^= x >> 7;
        x ^= x << 17;
        samples.push(x >> (x % 64));
        samples.push(x % 5_000_000);
    }
    for k in 0..4096u64 {
        samples.push(1024 + k * 5);
        samples.push(1048576 + k * 5243);
    }
    for b in samples {
        assert_eq!(humanize_bytes(b), float_humanize(b), "bytes = {b}");
    }
}

#[test]
fn decimal_strings() {
    assert_eq!(decimal_string(0), "0");
    assert_eq!(decimal_string(7), "7");
    assert_eq!(decimal_string(120034), "120034");
    assert_eq!(decimal_string(u64::MAX), u64::MAX.to_string());
}

#[test]
fn mode_and_close_labels() {
    assert_eq!(TunnelMode::Auto.label(), "Auto");
    assert_eq!(TunnelMode::TCP.label(), "TCP");
    assert_eq!(TunnelMode::UDP.label(), "UDP");
    assert_eq!(CloseAction::Ask.label(), "Ask every time");
    assert_eq!(CloseAction::MinimizeToTray.label(), "Minimize to Tray");
    assert_eq!(CloseAction::Exit.label(), "Exit");
}

fn sample_key() -> Key {
    Key {
        id: Some("home".to_string()),
        ip: Some("10.8.0.2".to_string()),
        priv_key: "k".repeat(43) + "=",
        is_active: Some(true),
        expiry: Some(738000),
        rx_bytes: Some(1536),
        tx_bytes: None,
    }
}

#[test]
fn new_key_has_only_private_key() {
    let k = Key::new("abc".to_string());
    assert_eq!(k.priv_key, "abc");
    assert!(k.id.is_none() && k.ip.is_none() && k.is_active.is_none());
    assert!(k.expiry.is_none() && k.rx_bytes.is_none() && k.tx_bytes.is_none());
}

#[test]
fn subscription_texts() {
    let mut k = sample_key();
    assert_eq!(k.get_subscription(), "Active");
    k.is_active = Some(false);
    assert_eq!(k.get_subscription(), "Inactive");
    k.is_active = None;
    assert_eq!(k.get_subscription(), "");
}

#[test]
fn expiry_texts() {
    let mut k = sample_key();
    assert_eq!(k.expiry_text_on(738000), "0 minutes left");
    assert_eq!(k.expiry_text_on(737990), "10 days left");
    assert_eq!(k.expiry_text_on(738003), "3 days ago");
    k.expiry = None;
    assert_eq!(k.expiry_text_on(738003), "");
    assert_eq!(k.get_expiry(), "");
}

#[test]
fn key_details_rows() {
    let k = sample_key();
    assert_eq!(k.end_date_text(), "2021-07-29");
    let rows = k.info_rows();
    let expected = vec![
        ("Key Name", "home".to_string()),
        ("Subscription", "Active".to_string()),
        ("End Date", "2021-07-29".to_string()),
        ("IP Address", "10.8.0.2".to_string()),
        ("Download Usage", "1.50 KB".to_string()),
        ("Upload Usage", String::new()),
    ];
    assert_eq!(rows, expected);
}

#[test]
fn handshake_and_state_texts() {
    assert_eq!(handshake_text(None, 5), "");
    assert_eq!(handshake_text(Some(0), 5), "");
    assert_eq!(handshake_text(Some(1700000000), 12), "12 seconds ago");
    assert_eq!(vpn_state_text(false, false, false), "Not Running");
    assert_eq!(vpn_state_text(false, true, false), "Waiting for Tunnel");
    assert_eq!(vpn_state_text(true, false, false), "Connecting...");
    assert_eq!(vpn_state_text(true, false, true), "Connected");
    assert_eq!(key_input_hint(true, false), "Please enter key");
    assert_eq!(key_input_hint(false, false), "Please enter a valid key");
    assert_eq!(key_input_hint(false, true), "");
}
