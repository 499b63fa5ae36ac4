//! The route finder's speed test: how librespeed is run, where its
//! figures are found in its report, and where they are sent.
use vstd::prelude::*;

use crate::parse::{regex_first_capture, regex_first_capture_of, texts};
use crate::text::push_str;

verus! {

/// The pattern of the figures in librespeed's report: ping, jitter,
/// download and upload rate, each a decimal number.
pub const SPEED_RESULT_PATTERN: &'static str =
    "Ping:\\s*([\\d.]+)\\s*ms\\s*Jitter:\\s*([\\d.]+)\\s*ms\\s*Download rate:\\s*([\\d.]+)\\s*Mbps\\s*Upload rate:\\s*([\\d.]+)\\s*Mbps";

/// The four figures of the first report in `contents`, as written: ping
/// and jitter in ms, download and upload rate in Mbps; None when the
/// report is not there.
pub fn speed_figures(contents: &str) -> (res: Option<(String, String, String, String)>)
    ensures
        match res {
            Some((p, j, d, u)) => regex_first_capture_of(SPEED_RESULT_PATTERN@, contents@, 1) == Some(p@)
                && regex_first_capture_of(SPEED_RESULT_PATTERN@, contents@, 2) == Some(j@)
                && regex_first_capture_of(SPEED_RESULT_PATTERN@, contents@, 3) == Some(d@)
                && regex_first_capture_of(SPEED_RESULT_PATTERN@, contents@, 4) == Some(u@),
            None => regex_first_capture_of(SPEED_RESULT_PATTERN@, contents@, 1) is None
                || regex_first_capture_of(SPEED_RESULT_PATTERN@, contents@, 2) is None
                || regex_first_capture_of(SPEED_RESULT_PATTERN@, contents@, 3) is None
                || regex_first_capture_of(SPEED_RESULT_PATTERN@, contents@, 4) is None,
        },
{
    let p = match regex_first_capture(SPEED_RESULT_PATTERN, contents, 1) {
        Some(t) => t,
        None => return None,
    };
    let j = match regex_first_capture(SPEED_RESULT_PATTERN, contents, 2) {
        Some(t) => t,
        None => return None,
    };
    let d = match regex_first_capture(SPEED_RESULT_PATTERN, contents, 3) {
        Some(t) => t,
        None => return None,
    };
    let u = match regex_first_capture(SPEED_RESULT_PATTERN, contents, 4) {
        Some(t) => t,
        None => return None,
    };
    Some((p, j, d, u))
}

/// The arguments librespeed runs with: no ICMP, three seconds per test,
/// 75 pings, and the server list published on `host`.
pub open spec fn librespeed_args_spec(host: Seq<char>) -> Seq<Seq<char>> {
    seq![
        "--no-icmp"@,
        "--duration"@,
        "3"@,
        "--ping-count"@,
        "75"@,
        "--server-json"@,
        "https://"@ + host + ":80/bin/librespeed-cli/config.json"@,
        "--server"@,
        "1"@,
    ]
}

/// The arguments librespeed runs with against the servers listed on
/// `host`.
pub fn librespeed_args(host: &str) -> (res: Vec<String>)
    ensures
        texts(res@) == librespeed_args_spec(host@),
{
    let mut json = "https://".to_owned();
    push_str(&mut json, host);
    push_str(&mut json, ":80/bin/librespeed-cli/config.json");
    let mut args: Vec<String> = Vec::new();
    args.push("--no-icmp".to_owned());
    args.push("--duration".to_owned());
    args.push("3".to_owned());
    args.push("--ping-count".to_owned());
    args.push("75".to_owned());
    args.push("--server-json".to_owned());
    args.push(json);
    args.push("--server".to_owned());
    args.push("1".to_owned());
    assert(texts(args@) =~= librespeed_args_spec(host@));
    args
}

/// The endpoint that receives the measured figures.
pub fn metrics_url(api_base: &str) -> (res: String)
    ensures
        res@ == api_base@ + "/metrics"@,
{
    let mut s = api_base.to_owned();
    push_str(&mut s, "/metrics");
    s
}

/// The endpoint that names the provider of an address.
pub fn isp_url(api_base: &str) -> (res: String)
    ensures
        res@ == api_base@ + "/isp"@,
{
    let mut s = api_base.to_owned();
    push_str(&mut s, "/isp");
    s
}

/// The line that shows the route in use: the public address and its
/// provider.
pub fn route_line(ip: &str, isp: &str) -> (res: String)
    ensures
        res@ == "Current Route: "@ + ip@ + " "@ + isp@,
{
    let mut s = "Current Route: ".to_owned();
    push_str(&mut s, ip);
    push_str(&mut s, " ");
    push_str(&mut s, isp);
    s
}

} // verus!
