//! The local tunnel process: its state as the window shows it, its log,
//! the command that starts it and how its port is found in its output.
use vstd::prelude::*;
use vstd::utf8::encode_utf8;
use vstd::string::StringSliceAdditionalSpecFns;

use owo_colors::OwoColorize;

use crate::app_config::TunnelMode;
use crate::parse::{contains, contains_spec, lines, lines_spec, parse_u16, parse_u16_spec, regex_first_capture, regex_first_capture_of, texts, utf8_lossy, utf8_lossy_of};
use crate::text::{decimal, push_decimal, push_signed_decimal, push_str, signed_decimal};
use crate::update::Binary;

verus! {

/// Where the tunnel process is in its life.
#[derive(Clone, Debug, PartialEq, Eq)]
pub enum TunnelStatus {
    DetectingMode,
    DetectingPort,
    Running,
    Stopping,
    Stopped,
    Failed(String),
    Exited(Option<i32>),
}

/// What the window knows about the tunnel: its status, the mode in use,
/// the local port once known, and everything the tunnel and the client
/// wrote to its log.
#[derive(Clone, Debug)]
pub struct TunnelState {
    pub status: TunnelStatus,
    pub mode: TunnelMode,
    pub port: Option<u16>,
    pub log: Vec<u8>,
}

/// Whether the tunnel counts as running only together with a known port.
/// Every change of the tunnel state below keeps this.
pub open spec fn running_has_port(status: TunnelStatus, port: Option<u16>) -> bool {
    status == TunnelStatus::Running ==> port is Some
}

/// The kind of a line the client adds to the tunnel log.
#[derive(Clone, Copy, PartialEq, Eq, Structural, Debug)]
pub enum LogType {
    Info,
    Error,
}

/// `s` between the ANSI escapes that set foreground color `code` and reset
/// it to the default.
pub open spec fn ansi_fg(code: Seq<char>, s: Seq<char>) -> Seq<char> {
    "\x1b["@ + code + "m"@ + s + "\x1b[39m"@
}

/// owo-colors' `green()` followed by `to_string()`.  Trusted, from the
/// crate's `FgColorDisplay` formatting: the text between "ESC[32m" and
/// "ESC[39m".
#[verifier::external_body]
fn green(s: &str) -> (res: String)
    ensures
        res@ == ansi_fg("32"@, s@),
{
    s.green().to_string()
}

/// owo-colors' `red()` followed by `to_string()`.  Trusted: the text between
/// "ESC[31m" and "ESC[39m".
#[verifier::external_body]
fn red(s: &str) -> (res: String)
    ensures
        res@ == ansi_fg("31"@, s@),
{
    s.red().to_string()
}

/// owo-colors' `bright_black()` followed by `to_string()`.  Trusted: the
/// text between "ESC[90m" and "ESC[39m".
#[verifier::external_body]
fn bright_black(s: &str) -> (res: String)
    ensures
        res@ == ansi_fg("90"@, s@),
{
    s.bright_black().to_string()
}

/// The current UTC time as RFC 3339 with microseconds and a "Z" suffix:
/// the system clock read through `SystemTime::now` and written by chrono's
/// `DateTime::<Utc>::from_timestamp` and `to_rfc3339_opts(Micros, true)`.
/// None when the clock reads before 1970 or beyond what chrono can hold.
/// Nothing more is promised: the text depends on the clock.
#[verifier::external_body]
fn timestamp_now() -> (res: Option<String>) {
    let since = std::time::SystemTime::now().duration_since(std::time::UNIX_EPOCH).ok()?;
    let secs = i64::try_from(since.as_secs()).ok()?;
    let now = chrono::DateTime::<chrono::Utc>::from_timestamp(secs, since.subsec_nanos())?;
    Some(now.to_rfc3339_opts(chrono::SecondsFormat::Micros, true))
}

/// The colored label of a log line kind.
pub open spec fn log_kind_text(kind: LogType) -> Seq<char> {
    match kind {
        LogType::Info => ansi_fg("32"@, "INFO"@),
        LogType::Error => ansi_fg("31"@, "ERROR"@),
    }
}

/// A line of the client in the tunnel log, written at time `ts`.
pub open spec fn log_line_spec(kind: LogType, msg: Seq<char>, ts: Seq<char>) -> Seq<char> {
    ansi_fg("90"@, ts) + "  "@ + ansi_fg("90"@, "mbtunnel:"@) + " "@ + log_kind_text(kind) + " "@ + msg + "\n"@
}

/// The log with a line break added when it does not end with one.
pub open spec fn separated(log: Seq<u8>) -> Seq<u8> {
    if log.len() > 0 && log.last() != 10u8 {
        log.push(10u8)
    } else {
        log
    }
}

/// The log after the client adds the line `msg` at time `ts`.
pub open spec fn log_after_spec(log: Seq<u8>, kind: LogType, msg: Seq<char>, ts: Seq<char>) -> Seq<u8> {
    separated(log) + encode_utf8(log_line_spec(kind, msg, ts))
}

/// `new` is `old` with the line `msg` added at some time.
pub open spec fn log_grew_by(old: Seq<u8>, new: Seq<u8>, kind: LogType, msg: Seq<char>) -> bool {
    exists|ts: Seq<char>| new == log_after_spec(old, kind, msg, ts)
}

/// Adds a line of the client to the tunnel log, stamped `timestamp`.
pub fn append_log_at(log: &mut Vec<u8>, kind: LogType, msg: &str, timestamp: &str)
    ensures
        final(log)@ == log_after_spec(old(log)@, kind, msg@, timestamp@),
{
    if log.len() > 0 && log[log.len() - 1] != 10u8 {
        log.push(10u8);
    }
    let mut line = bright_black(timestamp);
    push_str(&mut line, "  ");
    push_str(&mut line, bright_black("mbtunnel:").as_str());
    push_str(&mut line, " ");
    match kind {
        LogType::Info => push_str(&mut line, green("INFO").as_str()),
        LogType::Error => push_str(&mut line, red("ERROR").as_str()),
    }
    push_str(&mut line, " ");
    push_str(&mut line, msg);
    push_str(&mut line, "\n");
    assert(line@ =~= log_line_spec(kind, msg@, timestamp@));
    let bytes = line.as_str().as_bytes();
    let mut i: usize = 0;
    let ghost base = log@;
    while i < bytes.len()
        invariant
            i <= bytes@.len(),
            bytes@ == encode_utf8(line@),
            log@ == base + bytes@.subrange(0, i as int),
        decreases bytes@.len() - i,
    {
        log.push(bytes[i]);
        i = i + 1;
        assert(log@ =~= base + bytes@.subrange(0, i as int));
    }
    assert(bytes@.subrange(0, i as int) =~= bytes@);
}

/// Adds a line of the client to the tunnel log, stamped with the current
/// time (with an empty stamp when the clock cannot be read).
pub fn append_log(log: &mut Vec<u8>, kind: LogType, msg: &str)
    ensures
        log_grew_by(old(log)@, final(log)@, kind, msg@),
        old(log)@.is_prefix_of(final(log)@),
{
    let ts = match timestamp_now() {
        Some(t) => t,
        None => String::new(),
    };
    append_log_at(log, kind, msg, ts.as_str());
    proof {
        lemma_log_keeps_history(old(log)@, kind, msg@, ts@);
    }
}

/// The text of an optional number: the number, or nothing.
pub open spec fn opt_code_text(code: Option<i32>) -> Seq<char> {
    match code {
        Some(v) => signed_decimal(v as int),
        None => Seq::empty(),
    }
}

/// Appends an optional number: the number, or nothing.
pub fn push_opt_code(s: &mut String, code: Option<i32>)
    ensures
        final(s)@ == old(s)@ + opt_code_text(code),
{
    match code {
        Some(v) => push_signed_decimal(s, v as i64),
        None => {
            assert(s@ =~= old(s)@ + opt_code_text(code));
        },
    }
}

/// The pattern that finds the local port in the tunnel's output.
pub const PORT_PATTERN: &'static str = "127\\.0\\.0\\.1:(\\d+)";

/// The port a line of tunnel output announces: the digits after the first
/// "127.0.0.1:" the pattern finds, when they form a 16-bit number.
pub open spec fn port_in_line(line: Seq<char>) -> Option<u16> {
    match regex_first_capture_of(PORT_PATTERN@, line, 1) {
        Some(digits) => parse_u16_spec(digits),
        None => None,
    }
}

/// The port announced by the first line that announces one.
pub open spec fn first_port(lines: Seq<Seq<char>>) -> Option<u16>
    decreases lines.len(),
{
    if lines.len() == 0 {
        None
    } else {
        match port_in_line(lines[0]) {
            Some(p) => Some(p),
            None => first_port(lines.drop_first()),
        }
    }
}

/// The port announced in the part of `log` from `offset` on, read as text.
pub open spec fn detected_port_spec(log: Seq<u8>, offset: int) -> Option<u16> {
    first_port(lines_spec(utf8_lossy_of(log.subrange(offset, log.len() as int))))
}

/// The port announced in one line of tunnel output.
fn line_port(line: &str) -> (res: Option<u16>)
    ensures
        res == port_in_line(line@),
{
    match regex_first_capture(PORT_PATTERN, line, 1) {
        Some(digits) => parse_u16(digits.as_str()),
        None => None,
    }
}

/// The local port the tunnel announced in its output from `offset` on.
pub fn detect_port(log: &[u8], offset: usize) -> (res: Option<u16>)
    requires
        offset <= log@.len(),
    ensures
        res == detected_port_spec(log@, offset as int),
{
    let part = vstd::slice::slice_subrange(log, offset, log.len());
    let text = utf8_lossy(part);
    assert(text@ == utf8_lossy_of(log@.subrange(offset as int, log@.len() as int)));
    let all = lines(text.as_str());
    let ghost ls = texts(all@);
    let mut i: usize = 0;
    assert(ls.skip(0) =~= ls);
    while i < all.len()
        invariant
            i <= all@.len(),
            ls == texts(all@),
            ls == lines_spec(text@),
            text@ == utf8_lossy_of(log@.subrange(offset as int, log@.len() as int)),
            first_port(ls) == first_port(ls.skip(i as int)),
        decreases all@.len() - i,
    {
        assert(ls.skip(i as int)[0] == all@[i as int]@);
        assert(ls.skip(i as int).drop_first() =~= ls.skip(i + 1));
        let p = line_port(all[i].as_str());
        assert(port_in_line(ls.skip(i as int)[0]) == p);
        if p.is_some() {
            assert(first_port(ls.skip(i as int)) == p);
            return p;
        }
        i = i + 1;
    }
    assert(ls.skip(i as int) =~= Seq::<Seq<char>>::empty());
    None
}

/// How stopping the tunnel process went.
#[derive(Clone, Debug)]
pub enum StopOutcome {
    /// No tunnel process was running.
    NoProcess,
    /// The process was killed and waited for; the texts of what failed.
    Ended { kill_error: Option<String>, wait_error: Option<String> },
}

/// Whether `status` is a failure with the message `text`.
pub open spec fn failed_with(status: TunnelStatus, text: Seq<char>) -> bool {
    match status {
        TunnelStatus::Failed(m) => m@ == text,
        _ => false,
    }
}

/// The state before the tunnel is first started.
pub open spec fn initial_state_spec(s: TunnelState) -> bool {
    &&& s.status == TunnelStatus::Stopped
    &&& s.mode == TunnelMode::Auto
    &&& s.port is None
    &&& s.log@.len() == 0
}

impl TunnelState {
    /// The state before the tunnel is first started: stopped, mode still to
    /// be detected, no port, empty log.
    pub fn new() -> (res: TunnelState)
        ensures
            initial_state_spec(res),
    {
        TunnelState { status: TunnelStatus::Stopped, mode: TunnelMode::Auto, port: None, log: Vec::new() }
    }

    /// Output of the tunnel process, `chunk`, is added to the log as it
    /// came; nothing else changes.
    pub fn append_output(&mut self, chunk: &[u8])
        ensures
            final(self).log@ == old(self).log@ + chunk@,
            final(self).status == old(self).status,
            final(self).mode == old(self).mode,
            final(self).port == old(self).port,
            old(self).log@.is_prefix_of(final(self).log@),
            running_has_port(old(self).status, old(self).port) ==> running_has_port(final(self).status, final(self).port),
    {
        let mut i: usize = 0;
        while i < chunk.len()
            invariant
                i <= chunk@.len(),
                self.log@ == old(self).log@ + chunk@.subrange(0, i as int),
                self.status == old(self).status,
                self.mode == old(self).mode,
                self.port == old(self).port,
            decreases chunk@.len() - i,
        {
            self.log.push(chunk[i]);
            i = i + 1;
            assert(self.log@ =~= old(self).log@ + chunk@.subrange(0, i as int));
        }
        assert(chunk@.subrange(0, i as int) =~= chunk@);
    }

    /// The tunnel is being started in `mode`: mode detection begins, the port
    /// is forgotten and the start is logged.  Gives where the new output
    /// begins in the log.
    pub fn begin_start(&mut self, mode: TunnelMode) -> (offset: usize)
        ensures
            old(self).log@.is_prefix_of(final(self).log@),
            running_has_port(old(self).status, old(self).port) ==> running_has_port(final(self).status, final(self).port),
            final(self).status == TunnelStatus::DetectingMode,
            final(self).mode == mode,
            final(self).port is None,
            offset == old(self).log@.len(),
            log_grew_by(old(self).log@, final(self).log@, LogType::Info, "Starting Tunnel..."@),
    {
        self.status = TunnelStatus::DetectingMode;
        self.mode = mode;
        self.port = None;
        let offset = self.log.len();
        append_log(&mut self.log, LogType::Info, "Starting Tunnel...");
        offset
    }

    /// Logs that UDP on port 443 is being tried.
    pub fn note_udp_probe(&mut self)
        ensures
            old(self).log@.is_prefix_of(final(self).log@),
            running_has_port(old(self).status, old(self).port) ==> running_has_port(final(self).status, final(self).port),
            final(self).status == old(self).status,
            final(self).mode == old(self).mode,
            final(self).port == old(self).port,
            log_grew_by(old(self).log@, final(self).log@, LogType::Info, "Testing if UDP/443 is open..."@),
    {
        append_log(&mut self.log, LogType::Info, "Testing if UDP/443 is open...");
    }

    /// Records the outcome of the UDP probe: UDP when it got through, TCP
    /// otherwise.  Gives the mode chosen.
    pub fn set_probed_mode(&mut self, udp_open: bool) -> (mode: TunnelMode)
        ensures
            old(self).log@.is_prefix_of(final(self).log@),
            running_has_port(old(self).status, old(self).port) ==> running_has_port(final(self).status, final(self).port),
            mode == (if udp_open { TunnelMode::UDP } else { TunnelMode::TCP }),
            final(self).mode == mode,
            final(self).status == old(self).status,
            final(self).port == old(self).port,
            final(self).log@ == old(self).log@,
    {
        let mode = if udp_open { TunnelMode::UDP } else { TunnelMode::TCP };
        self.mode = mode;
        mode
    }

    /// The tunnel process runs; its port is now looked for.
    pub fn begin_port_detection(&mut self)
        ensures
            old(self).log@.is_prefix_of(final(self).log@),
            running_has_port(old(self).status, old(self).port) ==> running_has_port(final(self).status, final(self).port),
            final(self).status == TunnelStatus::DetectingPort,
            final(self).mode == old(self).mode,
            final(self).port == old(self).port,
            final(self).log@ == old(self).log@,
    {
        self.status = TunnelStatus::DetectingPort;
    }

    /// Looks for the port in the output written since `offset`, unless it
    /// is already known; once found the tunnel counts as running.
    pub fn poll_port(&mut self, offset: usize)
        requires
            offset <= old(self).log@.len(),
        ensures
            old(self).log@.is_prefix_of(final(self).log@),
            running_has_port(old(self).status, old(self).port) ==> running_has_port(final(self).status, final(self).port),
            final(self).log@ == old(self).log@,
            final(self).mode == old(self).mode,
            old(self).port is Some ==> final(self).port == old(self).port && final(self).status
                == old(self).status,
            old(self).port is None ==> final(self).port == detected_port_spec(old(self).log@, offset as int),
            old(self).port is None ==> (final(self).status == if final(self).port is Some {
                TunnelStatus::Running
            } else {
                old(self).status
            }),
    {
        if self.port.is_none() {
            let port = detect_port(self.log.as_slice(), offset);
            self.port = port;
            if port.is_some() {
                self.status = TunnelStatus::Running;
            }
        }
    }

    /// The tunnel process ended by itself with exit code `code`.
    pub fn child_exited(&mut self, code: Option<i32>)
        ensures
            old(self).log@.is_prefix_of(final(self).log@),
            running_has_port(old(self).status, old(self).port) ==> running_has_port(final(self).status, final(self).port),
            final(self).status == TunnelStatus::Exited(code),
            final(self).mode == old(self).mode,
            final(self).port == old(self).port,
            log_grew_by(old(self).log@, final(self).log@, LogType::Error,
                "Tunnel Exited with code "@ + opt_code_text(code)),
    {
        self.status = TunnelStatus::Exited(code);
        let mut msg = String::new();
        push_str(&mut msg, "Tunnel Exited with code ");
        push_opt_code(&mut msg, code);
        append_log(&mut self.log, LogType::Error, msg.as_str());
    }

    /// Starting the tunnel failed with the message `msg`.
    pub fn worker_failed(&mut self, msg: String)
        ensures
            old(self).log@.is_prefix_of(final(self).log@),
            running_has_port(old(self).status, old(self).port) ==> running_has_port(final(self).status, final(self).port),
            final(self).status == TunnelStatus::Failed(msg),
            final(self).mode == old(self).mode,
            final(self).port == old(self).port,
            log_grew_by(old(self).log@, final(self).log@, LogType::Error, msg@),
    {
        append_log(&mut self.log, LogType::Error, msg.as_str());
        self.status = TunnelStatus::Failed(msg);
    }

    /// The user asked to stop the tunnel.
    pub fn begin_stop(&mut self)
        ensures
            old(self).log@.is_prefix_of(final(self).log@),
            running_has_port(old(self).status, old(self).port) ==> running_has_port(final(self).status, final(self).port),
            final(self).status == TunnelStatus::Stopping,
            final(self).mode == old(self).mode,
            final(self).port == old(self).port,
            log_grew_by(old(self).log@, final(self).log@, LogType::Info, "Stopping Tunnel..."@),
    {
        self.status = TunnelStatus::Stopping;
        append_log(&mut self.log, LogType::Info, "Stopping Tunnel...");
    }

    /// Records how stopping went: the port is forgotten; the tunnel is
    /// stopped unless waiting for the process failed, in which case the
    /// failure of the kill (or else of the wait) is recorded and logged.
    pub fn finish_stop(&mut self, outcome: StopOutcome)
        ensures
            old(self).log@.is_prefix_of(final(self).log@),
            running_has_port(old(self).status, old(self).port) ==> running_has_port(final(self).status, final(self).port),
            final(self).port is None,
            final(self).mode == old(self).mode,
            match outcome {
                StopOutcome::NoProcess => final(self).status == TunnelStatus::Stopped
                    && final(self).log@ == old(self).log@,
                StopOutcome::Ended { kill_error, wait_error } => match (kill_error, wait_error) {
                    (_, None) => final(self).status == TunnelStatus::Stopped && final(self).log@ == old(self).log@,
                    (Some(e), Some(_)) => failed_with(final(self).status, "Kill Failed"@)
                        && log_grew_by(old(self).log@, final(self).log@, LogType::Error, "Kill Failed: "@ + e@),
                    (None, Some(e)) => failed_with(final(self).status, "Wait Failed"@)
                        && log_grew_by(old(self).log@, final(self).log@, LogType::Error, "Wait Failed: "@ + e@),
                },
            },
    {
        self.port = None;
        match outcome {
            StopOutcome::NoProcess => {
                self.status = TunnelStatus::Stopped;
            },
            StopOutcome::Ended { kill_error, wait_error } => {
                if wait_error.is_none() {
                    self.status = TunnelStatus::Stopped;
                } else {
                    match kill_error {
                        Some(e) => {
                            self.status = TunnelStatus::Failed("Kill Failed".to_owned());
                            let mut msg = "Kill Failed: ".to_owned();
                            push_str(&mut msg, e.as_str());
                            append_log(&mut self.log, LogType::Error, msg.as_str());
                        },
                        None => {
                            let e = wait_error.unwrap();
                            self.status = TunnelStatus::Failed("Wait Failed".to_owned());
                            let mut msg = "Wait Failed: ".to_owned();
                            push_str(&mut msg, e.as_str());
                            append_log(&mut self.log, LogType::Error, msg.as_str());
                        },
                    }
                }
            },
        }
    }
}

/// The arguments a tunnel program is started with.
pub open spec fn tunnel_args_spec(mode: TunnelMode, server_ip: Seq<char>, server_hostname: Seq<char>) -> Seq<Seq<char>> {
    if mode == TunnelMode::UDP {
        seq!["-b"@, "127.0.0.1"@, "-l"@, "0"@, "-h"@, server_ip, "-r"@, "443"@, "-d"@]
    } else {
        seq!["client"@, "--http-upgrade-path-prefix"@, "/ws"@, "wss://"@ + server_hostname + ":443"@,
            "-L"@, "udp://127.0.0.1:0:127.0.0.1:51280?timeout_sec=0"@]
    }
}

/// The program and arguments that run the tunnel in `mode` to the server
/// at `server_ip` (named `server_hostname`): udpproxy for UDP, wstunnel
/// over a WebSocket for TCP.  The mode must be decided already.
pub fn tunnel_command(mode: TunnelMode, server_ip: &str, server_hostname: &str) -> (res: (Binary, Vec<String>))
    requires
        mode != TunnelMode::Auto,
    ensures
        res.0 == (if mode == TunnelMode::UDP { Binary::Udpproxy } else { Binary::Wstunnel }),
        texts(res.1@) == tunnel_args_spec(mode, server_ip@, server_hostname@),
{
    let mut args: Vec<String> = Vec::new();
    if mode == TunnelMode::UDP {
        args.push("-b".to_owned());
        args.push("127.0.0.1".to_owned());
        args.push("-l".to_owned());
        args.push("0".to_owned());
        args.push("-h".to_owned());
        args.push(server_ip.to_owned());
        args.push("-r".to_owned());
        args.push("443".to_owned());
        args.push("-d".to_owned());
        assert(texts(args@) =~= tunnel_args_spec(mode, server_ip@, server_hostname@));
        (Binary::Udpproxy, args)
    } else {
        let mut wss = "wss://".to_owned();
        push_str(&mut wss, server_hostname);
        push_str(&mut wss, ":443");
        args.push("client".to_owned());
        args.push("--http-upgrade-path-prefix".to_owned());
        args.push("/ws".to_owned());
        args.push(wss);
        args.push("-L".to_owned());
        args.push("udp://127.0.0.1:0:127.0.0.1:51280?timeout_sec=0".to_owned());
        assert(texts(args@) =~= tunnel_args_spec(mode, server_ip@, server_hostname@));
        (Binary::Wstunnel, args)
    }
}

/// The tunnel state as the tunnel panel shows it.
pub open spec fn status_text_spec(status: TunnelStatus) -> Seq<char> {
    match status {
        TunnelStatus::DetectingMode => "Starting"@,
        TunnelStatus::DetectingPort => "Starting"@,
        TunnelStatus::Failed(err) => "Failed to Start "@ + err@,
        TunnelStatus::Exited(code) => "Exited "@ + opt_code_text(code),
        TunnelStatus::Running => "Running"@,
        TunnelStatus::Stopping => "Stopping"@,
        TunnelStatus::Stopped => "Stopped"@,
    }
}

/// The "Tunnel State" row of the tunnel panel.
pub fn status_text(status: &TunnelStatus) -> (res: String)
    ensures
        res@ == status_text_spec(*status),
{
    match status {
        TunnelStatus::DetectingMode => "Starting".to_owned(),
        TunnelStatus::DetectingPort => "Starting".to_owned(),
        TunnelStatus::Failed(err) => {
            let mut s = "Failed to Start ".to_owned();
            push_str(&mut s, err.as_str());
            s
        },
        TunnelStatus::Exited(code) => {
            let mut s = "Exited ".to_owned();
            push_opt_code(&mut s, *code);
            s
        },
        TunnelStatus::Running => "Running".to_owned(),
        TunnelStatus::Stopping => "Stopping".to_owned(),
        TunnelStatus::Stopped => "Stopped".to_owned(),
    }
}

/// The "Tunnel Mode" row of the tunnel panel while the tunnel runs.
pub fn mode_text(mode: TunnelMode) -> (res: &'static str)
    ensures
        res@ == (match mode {
            TunnelMode::Auto => "Detecting"@,
            TunnelMode::UDP => "UDP"@,
            TunnelMode::TCP => "TCP"@,
        }),
{
    match mode {
        TunnelMode::Auto => "Detecting",
        TunnelMode::UDP => "UDP",
        TunnelMode::TCP => "TCP",
    }
}

/// The "Tunnel Port" row of the tunnel panel.
pub open spec fn port_text_spec(status: TunnelStatus, port: Option<u16>) -> Seq<char> {
    if status == TunnelStatus::Stopped {
        Seq::empty()
    } else {
        match port {
            Some(p) => decimal(p as nat),
            None => "Detecting"@,
        }
    }
}

/// The "Tunnel Port" row of the tunnel panel: empty while stopped, the
/// port once known, "Detecting" before.
pub fn port_text(status: &TunnelStatus, port: Option<u16>) -> (res: String)
    ensures
        res@ == port_text_spec(*status, port),
{
    let mut s = String::new();
    match status {
        TunnelStatus::Stopped => {},
        _ => match port {
            Some(p) => push_decimal(&mut s, p as u128),
            None => push_str(&mut s, "Detecting"),
        },
    }
    assert(s@ =~= port_text_spec(*status, port));
    s
}

/// What the WireGuard interface is configured with.
#[derive(Clone, Debug)]
pub struct WgConfig {
    pub private_key: String,
    pub ipv4_address: Vec<crate::fetch::IpMask>,
    pub server_public_key: String,
    pub endpoint_port: u16,
    pub allowed_ips: Vec<crate::fetch::IpMask>,
    pub mtu: Option<u32>,
}

impl WgConfig {
    /// An empty configuration, filled in before the VPN starts.
    pub fn new() -> (res: WgConfig)
        ensures
            res.private_key@.len() == 0,
            res.ipv4_address@.len() == 0,
            res.server_public_key@.len() == 0,
            res.endpoint_port == 0,
            res.allowed_ips@.len() == 0,
            res.mtu is None,
    {
        WgConfig {
            private_key: String::new(),
            ipv4_address: Vec::new(),
            server_public_key: String::new(),
            endpoint_port: 0,
            allowed_ips: Vec::new(),
            mtu: None,
        }
    }
}

/// The local address WireGuard sends to: the tunnel's port on 127.0.0.1.
pub fn endpoint_text(port: u16) -> (res: String)
    ensures
        res@ == "127.0.0.1:"@ + decimal(port as nat),
{
    let mut s = "127.0.0.1:".to_owned();
    push_decimal(&mut s, port as u128);
    s
}

/// Whether the answer to the HTTP/3 probe shows that the request went over
/// HTTP/3 (Cloudflare's trace reports "http=http/3").
pub fn reply_is_http3(body: &str) -> (res: bool)
    ensures
        res == contains_spec(body@, "http=http/3"@),
{
    contains(body, "http=http/3")
}

/// Whatever sequence of changes the tunnel state goes through, each of
/// which keeps the log's earlier contents, the log from before all of them
/// is still at its start: a log seen once is a prefix of every later log.
pub proof fn lemma_log_kept_through(a: Seq<u8>, b: Seq<u8>, c: Seq<u8>)
    requires
        a.is_prefix_of(b),
        b.is_prefix_of(c),
    ensures
        a.is_prefix_of(c),
{
    assert(a =~= c.subrange(0, a.len() as int)) by {
        assert forall|i: int| 0 <= i < a.len() implies a[i] == c.subrange(0, a.len() as int)[i] by {
            assert(a[i] == b.subrange(0, a.len() as int)[i]);
            assert(b[i] == c.subrange(0, b.len() as int)[i]);
        }
    }
}

/// Adding a line to the tunnel log keeps everything already in it: the
/// log only grows.
pub proof fn lemma_log_keeps_history(log: Seq<u8>, kind: LogType, msg: Seq<char>, ts: Seq<char>)
    ensures
        log_after_spec(log, kind, msg, ts).len() > log.len(),
        log_after_spec(log, kind, msg, ts).subrange(0, log.len() as int) == log,
{
    let sep = separated(log);
    let line = encode_utf8(log_line_spec(kind, msg, ts));
    assert(sep.subrange(0, log.len() as int) =~= log);
    let chars = log_line_spec(kind, msg, ts);
    reveal_strlit("\n");
    assert(chars.len() > 0);
    assert(line.len() > 0);
    assert((sep + line).subrange(0, log.len() as int) =~= log);
}

/// Whatever time stamp was used, a log that grew by a line still starts
/// with what it held before.
pub proof fn lemma_grown_log_keeps_history(old: Seq<u8>, new: Seq<u8>, kind: LogType, msg: Seq<char>)
    requires
        log_grew_by(old, new, kind, msg),
    ensures
        new.len() > old.len(),
        new.subrange(0, old.len() as int) == old,
{
    let ts = choose|ts: Seq<char>| new == log_after_spec(old, kind, msg, ts);
    lemma_log_keeps_history(old, kind, msg, ts);
}

} // verus!
