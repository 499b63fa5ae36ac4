use mbtunnel::pathfinder::{adapter_names, new_switch_command, set_mac_command};
use mbtunnel::startup::{
    lookup_checksum, needs_download, needs_self_update, release_url, replace, self_download_url,
    self_update_path, signed_helper_url, startup_step, StartupStep,
};

#[test]
fn replace_matches_std_replace() {
    let cases = [
        ("C:\\bin\\pathfinder-temp.exe", "pathfinder-temp.exe", "pathfinder.exe"),
        ("aaaa", "aa", "b"),
        ("abcabc", "bc", ""),
        ("no match here", "xyz", "q"),
        ("", "a", "b"),
        ("ab", "", "x"),
        ("", "", "x"),
        ("é€", "", "--"),
        ("aaa", "aa", "aaaa"),
    ];
    for (s, from, to) in cases {
        assert_eq!(replace(s, from, to), s.replace(from, to));
    }
}

#[test]
fn temporary_copy_relaunches_installed() {
    match startup_step("C:\\Apps\\pathfinder-temp.exe", "pathfinder") {
        StartupStep::RelaunchInstalled { installed_path } => {
            assert_eq!(installed_path, "C:\\Apps\\pathfinder.exe");
        }
        other => panic!("unexpected step {:?}", other),
    }
}

#[test]
fn installed_removes_temporary_copy() {
    match startup_step("C:\\Apps\\pathfinder.exe", "pathfinder") {
        StartupStep::RemoveTemporaryCopy { temp_path } => {
            assert_eq!(temp_path, "C:\\Apps\\pathfinder-temp.exe");
        }
        other => panic!("unexpected step {:?}", other),
    }
}

#[test]
fn update_path_is_the_temporary_name() {
    assert_eq!(
        self_update_path("D:\\x\\pathfinder.exe", "pathfinder"),
        "D:\\x\\pathfinder-temp.exe"
    );
}

#[test]
fn self_update_only_on_a_new_release() {
    assert!(!needs_self_update("5", "5"));
    assert!(needs_self_update("5", "6"));
}

#[test]
fn download_when_missing_or_corrupt() {
    assert!(needs_download(false, true));
    assert!(needs_download(true, false));
    assert!(!needs_download(true, true));
}

#[test]
fn startup_urls() {
    assert_eq!(release_url("vpn.example"), "https://vpn.example:80/pkgrel/windows-pf");
    assert_eq!(self_download_url("vpn.example"), "https://vpn.example:80/bin/pathfinder.exe");
    assert_eq!(
        signed_helper_url("vpn.example", "udpproxy"),
        "https://vpn.example:80/bin/udpproxy/udpproxy-win-signed-amd64.zst"
    );
}

#[test]
fn checksum_lookup_takes_first_entry() {
    let table = [("udpproxy", "aa"), ("wstunnel", "bb"), ("udpproxy", "cc")];
    assert_eq!(lookup_checksum(&table, "udpproxy"), Some("aa".to_string()));
    assert_eq!(lookup_checksum(&table, "wstunnel"), Some("bb".to_string()));
    assert_eq!(lookup_checksum(&table, "quiche"), None);
}

#[test]
fn adapter_commands() {
    assert_eq!(
        adapter_names(b"Ethernet\r\nWi-Fi\n"),
        vec!["Ethernet".to_string(), "Wi-Fi".to_string()]
    );
    assert_eq!(adapter_names(b""), Vec::<String>::new());
    assert_eq!(
        new_switch_command("Wi-Fi"),
        "New-VMSwitch -Name 'Pathfinder Adapter' -NetAdapterName 'Wi-Fi' -AllowManagementOS $true"
    );
    assert_eq!(
        set_mac_command("02-11-22-33-44-55"),
        "Set-NetAdapter -Name 'vEthernet (Pathfinder Adapter)' -MacAddress 02-11-22-33-44-55 -Confirm:$false"
    );
}
