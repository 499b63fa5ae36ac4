use mbtunnel::app_config::{CloseAction, Key};
use mbtunnel::dialog::{
    apply_dialog_reply, dialog_step, exit_step, remember_close_choice, DialogAction, DialogReply,
    ExitStep, ReplyEffect,
};
use mbtunnel::display::{
    check_key_input, delete_prompt, first_key_id, private_key_from_config, selected_key_details,
    selected_key_index, wg_key_valid,
};
use mbtunnel::fetch::{
    apply_key_reply, config_from_reply, parse_allowed_ips, peer_config_from_fields, split,
    IpAddress, IpMask, KeyReply,
};
use mbtunnel::parse::{contains, lines, parse_u16, trim};
use mbtunnel::pathfinder::{
    hyperv_listed, hyperv_state_from, isp_label, mac_text, public_ip_from, random_mac,
    remove_adapter_error, HyperVState,
};
use mbtunnel::update::{
    binaries_to_check, binary_location, binary_url, checking_label, checksum_matches, done_texts,
    downloading_label, get_arch_string, get_os_string, hex_encode, retry_step, same_text,
    without_update_marker, worker_action_for, BinaryLocation, Binary, RetryStep, UpdateProgress,
    WorkerAction, ARCH, OS,
};

#[test]
fn trimming_and_lines() {
    assert_eq!(trim("  \t key \u{3000}\n"), "key");
    assert_eq!(trim("   "), "");
    assert_eq!(lines("a\r\nb\n\nc\r"), vec!["a", "b", "", "c\r"]);
    assert_eq!(lines(""), Vec::<String>::new());
    assert_eq!(lines("x\n"), vec!["x"]);
    assert!(contains("hello world", "o w"));
    assert!(!contains("hello", "hello!"));
    assert!(contains("abc", ""));
}

#[test]
fn u16_parsing() {
    assert_eq!(parse_u16("0"), Some(0));
    assert_eq!(parse_u16("+80"), Some(80));
    assert_eq!(parse_u16("65535"), Some(65535));
    assert_eq!(parse_u16("65536"), None);
    assert_eq!(parse_u16("0000065535"), Some(65535));
    assert_eq!(parse_u16(""), None);
    assert_eq!(parse_u16("+"), None);
    assert_eq!(parse_u16("-1"), None);
    assert_eq!(parse_u16("12a"), None);
    for s in ["7", "+7", "99999999999", "1 2", "٣"] {
        assert_eq!(parse_u16(s), s.parse::<u16>().ok(), "{s}");
    }
}

#[test]
fn splitting_on_commas() {
    assert_eq!(split("a,,b", ','), vec!["a", "", "b"]);
    assert_eq!(split("", ','), vec![""]);
    assert_eq!(split("x,", ','), vec!["x", ""]);
}

#[test]
fn allowed_ips_from_the_api() {
    let ips = parse_allowed_ips("10.0.0.0/8, 192.168.1.7 ,::/0").unwrap();
    assert_eq!(
        ips,
        vec![
            IpMask { address: IpAddress::V4(0x0a000000), cidr: 8 },
            IpMask { address: IpAddress::V4(0xc0a80107), cidr: 32 },
            IpMask { address: IpAddress::V6(0), cidr: 0 },
        ]
    );
    assert_eq!(
        parse_allowed_ips("10.0.0.0/8, 10.0.0.0/33").unwrap_err(),
        "Invalid allowed IP '10.0.0.0/33': IP address/mask parse error"
    );
    assert_eq!(
        parse_allowed_ips("").unwrap_err(),
        "Invalid allowed IP '': IP address/mask parse error"
    );
}

#[test]
fn peer_config_fields() {
    let c = peer_config_from_fields(Some("pk".into()), Some("0.0.0.0/0".into()), Some(1420)).unwrap();
    assert_eq!(c.server_public_key, "pk");
    assert_eq!(c.mtu, Some(1420));
    assert_eq!(
        peer_config_from_fields(None, None, None).unwrap_err(),
        "Missing server_public_key in response"
    );
    assert_eq!(
        peer_config_from_fields(Some("pk".into()), None, None).unwrap_err(),
        "Missing allowed_ips in response"
    );
    assert_eq!(
        peer_config_from_fields(Some("pk".into()), Some("0.0.0.0/0".into()), None).unwrap_err(),
        "Missing mtu in response"
    );
    assert_eq!(
        peer_config_from_fields(Some("pk".into()), Some("0.0.0.0/0".into()), Some(1 << 32)).unwrap_err(),
        "mtu is too large for u32"
    );
}

#[test]
fn peer_config_from_api_answer() {
    let body = r#"{"server_public_key":"abc=","allowed_ips":"0.0.0.0/0,::/0","mtu":1280}"#;
    let c = config_from_reply(false, body).unwrap();
    assert_eq!(c.server_public_key, "abc=");
    assert_eq!(c.allowed_ips.len(), 2);
    assert_eq!(c.mtu, Some(1280));
    assert_eq!(config_from_reply(true, body).unwrap_err(), "Invalid Key");
    assert_eq!(config_from_reply(false, "not json").unwrap_err(), "Failed to parse API response");
    assert_eq!(
        config_from_reply(false, r#"{"server_public_key":5}"#).unwrap_err(),
        "Missing server_public_key in response"
    );
    assert_eq!(
        config_from_reply(false, r#"{"server_public_key":"a","allowed_ips":"0.0.0.0/0","mtu":-1}"#).unwrap_err(),
        "Missing mtu in response"
    );
}

fn key(id: Option<&str>) -> Key {
    let mut k = Key::new("priv".to_string());
    k.id = id.map(|s| s.to_string());
    k.ip = Some("10.1.0.2".into());
    k.is_active = Some(true);
    k
}

#[test]
fn key_replies() {
    let mut keys = vec![key(Some("a")), key(None)];
    apply_key_reply(&mut keys, 1, KeyReply::Forbidden);
    assert_eq!(keys[1].id.as_deref(), Some("Invalid Key"));
    assert_eq!(keys[1].priv_key, "priv");
    assert_eq!(keys[0].id.as_deref(), Some("a"));
    let mut fresh = key(Some("b"));
    fresh.rx_bytes = Some(9);
    apply_key_reply(&mut keys, 0, KeyReply::Info(fresh));
    assert_eq!(keys[0].id.as_deref(), Some("b"));
    assert_eq!(keys[0].rx_bytes, Some(9));
}

#[test]
fn selected_key_lookup() {
    let keys = vec![key(Some("a")), key(Some("b")), key(None)];
    assert_eq!(first_key_id(&keys).as_deref(), Some("a"));
    assert_eq!(first_key_id(&[]), None);
    assert_eq!(selected_key_index(&keys, &Some("b".into())), Some(1));
    assert_eq!(selected_key_index(&keys[..2], &Some("c".into())), None);
    let (ip, pk, active) = selected_key_details(&keys, &Some("b".into()));
    assert_eq!((ip.as_str(), pk.as_str(), active), ("10.1.0.2", "priv", true));
    let (ip, pk, active) = selected_key_details(&keys[..2], &Some("z".into()));
    assert_eq!((ip.as_str(), pk.as_str(), active), ("", "", false));
}

#[test]
fn wireguard_key_input() {
    let good = "a".repeat(43) + "=";
    assert!(wg_key_valid(&good));
    assert!(!wg_key_valid(&("a".repeat(42) + "==")));
    assert!(!wg_key_valid(&("a".repeat(43) + "-")));
    assert!(!wg_key_valid(&("a".repeat(42) + "!=")));
    let (t, blank, valid) = check_key_input(&format!("  {good}\n"));
    assert_eq!(t, good);
    assert!(!blank && valid);
    let (_, blank, valid) = check_key_input(" \t ");
    assert!(blank && !valid);
}

#[test]
fn private_key_from_wireguard_file() {
    let conf = "[Interface]\nPrivateKey = first=\nAddress = 10.0.0.2/32\n  PrivateKey=second=  \n";
    assert_eq!(private_key_from_config(conf, "/x.conf").unwrap(), "second=");
    assert_eq!(
        private_key_from_config("[Peer]\nPublicKey = x\n", "/x.conf").unwrap_err(),
        "/x.conf Not a valid Wireguard config file"
    );
    assert_eq!(delete_prompt("home"), "Are you sure you want to delete this config?\n home");
}

#[test]
fn dialog_frames() {
    assert_eq!(dialog_step(false, true, true, true), (false, Some(DialogReply::Closed)));
    assert_eq!(dialog_step(true, true, false, false), (true, None));
    assert_eq!(dialog_step(true, false, false, false), (false, Some(DialogReply::Closed)));
    assert_eq!(dialog_step(true, true, true, false), (false, Some(DialogReply::Primary)));
    assert_eq!(dialog_step(true, true, true, true), (false, Some(DialogReply::Secondary)));
}

#[test]
fn dialog_replies_change_keys() {
    let mut keys = vec![key(Some("a")), key(Some("b")), key(Some("c"))];
    let mut pending = Some(1);
    let mut ignore = false;
    let e = apply_dialog_reply(&mut keys, &mut pending, &mut ignore, DialogAction::ClearSpecificKey, DialogReply::Secondary);
    assert_eq!(e, ReplyEffect::Nothing);
    assert_eq!(keys.iter().map(|k| k.id.clone().unwrap()).collect::<Vec<_>>(), vec!["a", "c"]);
    assert_eq!(pending, None);
    pending = Some(7);
    apply_dialog_reply(&mut keys, &mut pending, &mut ignore, DialogAction::ClearSpecificKey, DialogReply::Secondary);
    assert_eq!(keys.len(), 2);
    pending = Some(0);
    apply_dialog_reply(&mut keys, &mut pending, &mut ignore, DialogAction::ClearSpecificKey, DialogReply::Primary);
    assert_eq!((keys.len(), pending), (2, None));
    apply_dialog_reply(&mut keys, &mut pending, &mut ignore, DialogAction::IgnoreSaveError, DialogReply::Primary);
    assert!(ignore);
    apply_dialog_reply(&mut keys, &mut pending, &mut ignore, DialogAction::ClearAllKeys, DialogReply::Primary);
    assert_eq!(keys.len(), 2);
    apply_dialog_reply(&mut keys, &mut pending, &mut ignore, DialogAction::ClearAllKeys, DialogReply::Secondary);
    assert!(keys.is_empty());
    assert_eq!(
        apply_dialog_reply(&mut keys, &mut pending, &mut ignore, DialogAction::Exit, DialogReply::Closed),
        ReplyEffect::ExitProcess
    );
    assert_eq!(
        apply_dialog_reply(&mut keys, &mut pending, &mut ignore, DialogAction::GracefulExit, DialogReply::Primary),
        ReplyEffect::GracefulExit
    );
    assert_eq!(
        apply_dialog_reply(&mut keys, &mut pending, &mut ignore, DialogAction::GracefulExit, DialogReply::Secondary),
        ReplyEffect::Nothing
    );
}

#[test]
fn closing_the_window() {
    assert_eq!(exit_step(CloseAction::Ask, None, false), ExitStep::AskUser);
    assert_eq!(exit_step(CloseAction::Ask, Some(CloseAction::MinimizeToTray), true), ExitStep::HideToTray);
    assert_eq!(exit_step(CloseAction::Exit, None, true), ExitStep::ConfirmWhileVpnRuns);
    assert_eq!(exit_step(CloseAction::Ask, Some(CloseAction::Exit), false), ExitStep::Close);
    assert_eq!(remember_close_choice(CloseAction::Ask, true, CloseAction::Exit), (CloseAction::Exit, false));
    assert_eq!(remember_close_choice(CloseAction::Ask, false, CloseAction::Exit), (CloseAction::Ask, false));
}

#[test]
fn download_names_and_places() {
    assert_eq!(get_os_string(OS::Linux), "linux");
    assert_eq!(get_os_string(OS::Darwin), "darwin");
    assert_eq!(get_os_string(OS::Windows), "windows");
    assert_eq!(get_arch_string(ARCH::Amd64), "amd64");
    assert_eq!(get_arch_string(ARCH::Arm64), "arm64");
    assert_eq!(
        binary_url("vpn.example", &Binary::Wstunnel, OS::Linux, ARCH::Arm64),
        "https://vpn.example/bin/wstunnel/wstunnel-linux-arm64.zst"
    );
    match binary_location(&Binary::Mbtunnel, OS::Linux, "mbtunnel", "mbtunnel") {
        BinaryLocation::NextToExecutable(n) => assert_eq!(n, "mbtunnel.updatefile"),
        _ => panic!("the client is updated next to itself"),
    }
    match binary_location(&Binary::Mbtunnel, OS::Windows, "mbtunnel.exe", "mbtunnel") {
        BinaryLocation::NextToExecutable(n) => assert_eq!(n, "mbtunnel.updatefile.exe"),
        _ => panic!("the client is updated next to itself"),
    }
    match binary_location(&Binary::WireguardDll, OS::Windows, "m.exe", "m") {
        BinaryLocation::InAppData(n) => assert_eq!(n, "wireguard.dll"),
        _ => panic!("helpers live in the data directory"),
    }
    match binary_location(&Binary::Udpproxy, OS::Linux, "m", "m") {
        BinaryLocation::InAppData(n) => assert_eq!(n, "udpproxy"),
        _ => panic!("helpers live in the data directory"),
    }
    assert_eq!(without_update_marker("mbtunnel.updatefile").as_deref(), Some("mbtunnel"));
    assert_eq!(without_update_marker("a.updatefile.updatefile.exe").as_deref(), Some("a.updatefile.exe"));
    assert_eq!(without_update_marker("mbtunnel"), None);
}

#[test]
fn update_checks() {
    let list = [Binary::Udpproxy, Binary::Wstunnel, Binary::Librespeed, Binary::WireguardDll];
    assert_eq!(
        binaries_to_check(&list, OS::Linux),
        vec![(0, Binary::Udpproxy), (1, Binary::Wstunnel), (2, Binary::Librespeed)]
    );
    assert_eq!(binaries_to_check(&list, OS::Windows).len(), 4);
    assert!(checksum_matches(b"abc", "ba7816bf8f01cfea414140de5dae2223b00361a396177a9cb410ff61f20015ad"));
    assert!(!checksum_matches(b"abd", "ba7816bf8f01cfea414140de5dae2223b00361a396177a9cb410ff61f20015ad"));
    assert_eq!(hex_encode(&[0, 15, 16, 255]), "000f10ff");
    assert!(same_text("x", "x") && !same_text("x", "y"));
    assert_eq!(worker_action_for(DialogAction::RetryUpdate, DialogReply::Primary), Some(WorkerAction::Continue));
    assert_eq!(worker_action_for(DialogAction::RetryUpdate, DialogReply::Secondary), Some(WorkerAction::Retry));
    assert_eq!(worker_action_for(DialogAction::RetryUpdate, DialogReply::Closed), None);
    assert_eq!(worker_action_for(DialogAction::NoAction, DialogReply::Primary), None);
    assert_eq!(retry_step(Some(WorkerAction::Retry)), RetryStep::Retry);
    assert_eq!(retry_step(Some(WorkerAction::Continue)), RetryStep::SkipFailed);
    assert_eq!(retry_step(None), RetryStep::Stop);
}

#[test]
fn update_dialog_progress() {
    let mut p = UpdateProgress::start(4);
    p.on_checking(2, "wstunnel".into());
    match &p {
        UpdateProgress::Checking { current_name, current_index, total } => {
            assert_eq!((current_name.as_str(), *current_index, *total), ("wstunnel", 2, 4));
            assert_eq!(checking_label(current_name, *current_index, *total), "wstunnel (3/4)");
        }
        _ => panic!("still checking"),
    }
    assert_eq!(checking_label("", 0, 4), "Starting…");
    p.on_progress("udpproxy".into(), 10, 100, false);
    p.on_progress("udpproxy".into(), 100, 100, true);
    match &p {
        UpdateProgress::Downloading { done_count, total, downloaded, .. } => {
            assert_eq!((*done_count, *total, *downloaded), (1, 4, 100));
        }
        _ => panic!("downloading"),
    }
    assert_eq!(downloading_label("udpproxy", 1, 4), "udpproxy (2/4)");
    p.on_finished(true, false);
    assert!(matches!(p, UpdateProgress::Done { had_updates: true, updates_failed: false }));
    assert_eq!(done_texts(true, false).0, "✅ Updates complete");
    assert_eq!(done_texts(true, true).1, "Some binaries may have failed to update.");
    assert_eq!(done_texts(false, false).0, "✅ Up to date");
}

#[test]
fn route_finder_texts() {
    assert_eq!(HyperVState::Enabled.label(), "Enabled");
    assert_eq!(HyperVState::Unavailable.label(), "Unavailable");
    assert!(hyperv_listed("FeatureName : Microsoft-Hyper-V-All\nState : Enabled"));
    assert!(!hyperv_listed("   \n"));
    assert!(!hyperv_listed("nothing here"));
    assert_eq!(hyperv_state_from(" Enabled\r\n"), HyperVState::Enabled);
    assert_eq!(hyperv_state_from("Disabled"), HyperVState::Disabled);
    assert_eq!(hyperv_state_from("EnablePending"), HyperVState::Unavailable);
    assert_eq!(
        remove_adapter_error("Hyper-V was unable to find a virtual switch with name \"Pathfinder Adapter\"."),
        "Pathfinder adapter does not exist."
    );
    assert_eq!(remove_adapter_error("oops"), "Command failed: oops");
    assert_eq!(isp_label(" ACME Net \n"), "(ACME Net)");
    assert_eq!(isp_label("  "), "");
    assert_eq!(public_ip_from("198.51.100.4\n").as_deref(), Some("198.51.100.4"));
    assert_eq!(public_ip_from(""), None);
    assert_eq!(mac_text(&[0xff, 1, 2, 0xab, 0x0c, 0x10]), "fe-01-02-ab-0c-10");
    let mac = random_mac().expect("the system random source works here");
    assert_eq!(mac.len(), 17);
    let first = u8::from_str_radix(&mac[..2], 16).unwrap();
    assert_eq!(first & 0x03, 0x02);
}
