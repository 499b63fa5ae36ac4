use mbtunnel::speedtest::{isp_url, librespeed_args, metrics_url, route_line, speed_figures};

#[test]
fn figures_from_a_report() {
    let report = "Server: x\nPing: 12.5 ms\tJitter: 1.25 ms\nDownload rate:  93.40 Mbps\tUpload rate: 40.1 Mbps\n";
    assert_eq!(
        speed_figures(report),
        Some(("12.5".to_string(), "1.25".to_string(), "93.40".to_string(), "40.1".to_string()))
    );
}

#[test]
fn no_figures_without_a_report() {
    assert_eq!(speed_figures("Ping: 12 ms"), None);
    assert_eq!(speed_figures(""), None);
}

#[test]
fn librespeed_arguments() {
    assert_eq!(
        librespeed_args("vpn.example"),
        vec![
            "--no-icmp", "--duration", "3", "--ping-count", "75", "--server-json",
            "https://vpn.example:80/bin/librespeed-cli/config.json", "--server", "1",
        ]
    );
}

#[test]
fn speed_test_endpoints_and_route() {
    assert_eq!(metrics_url("https://api.example"), "https://api.example/metrics");
    assert_eq!(isp_url("https://api.example"), "https://api.example/isp");
    assert_eq!(route_line("1.2.3.4", "(Example ISP)"), "Current Route: 1.2.3.4 (Example ISP)");
}
