//! Route finding on Windows: reading Hyper-V's state from PowerShell's
//! output and making a random MAC address for the virtual switch.
use vstd::prelude::*;

use crate::parse::{contains, contains_spec, lines, lines_spec, texts, trim, trim_spec, utf8_lossy, utf8_lossy_of};
use crate::text::{push_char, push_str};
use crate::update::{hex_char, hex_digit, same_text};

verus! {

/// Whether Hyper-V can be used on this machine.
#[derive(Clone, Copy, PartialEq, Eq, Structural, Debug)]
pub enum HyperVState {
    Enabled,
    Disabled,
    Unavailable,
}

impl HyperVState {
    pub open spec fn label_spec(self) -> Seq<char> {
        match self {
            HyperVState::Enabled => "Enabled"@,
            HyperVState::Disabled => "Disabled"@,
            HyperVState::Unavailable => "Unavailable"@,
        }
    }

    /// The state's name as printed.
    pub fn label(&self) -> (res: &'static str)
        ensures
            res@ == self.label_spec(),
    {
        match self {
            HyperVState::Enabled => "Enabled",
            HyperVState::Disabled => "Disabled",
            HyperVState::Unavailable => "Unavailable",
        }
    }
}

/// The name of the Hyper-V feature in PowerShell's listing.
pub const HYPERV_FEATURE: &'static str = "Microsoft-Hyper-V-All";

/// Whether the listing of optional features (`stdout`) shows Hyper-V: it
/// is not blank and names the feature.
pub fn hyperv_listed(stdout: &str) -> (res: bool)
    ensures
        res == (trim_spec(stdout@).len() != 0 && contains_spec(stdout@, HYPERV_FEATURE@)),
{
    let t = trim(stdout);
    !t.as_str().is_empty() && contains(stdout, HYPERV_FEATURE)
}

/// Hyper-V's state from the feature's `State` as PowerShell printed it.
pub fn hyperv_state_from(state_stdout: &str) -> (res: HyperVState)
    ensures
        res == (if trim_spec(state_stdout@) == "Enabled"@ {
            HyperVState::Enabled
        } else if trim_spec(state_stdout@) == "Disabled"@ {
            HyperVState::Disabled
        } else {
            HyperVState::Unavailable
        }),
{
    let t = trim(state_stdout);
    if same_text(t.as_str(), "Enabled") {
        HyperVState::Enabled
    } else if same_text(t.as_str(), "Disabled") {
        HyperVState::Disabled
    } else {
        HyperVState::Unavailable
    }
}

/// The message when removing the route adapter failed with `stderr`.
pub open spec fn remove_adapter_error_spec(stderr: Seq<char>) -> Seq<char> {
    if contains_spec(stderr, "Hyper-V was unable to find a virtual switch with name \"Pathfinder Adapter\""@) {
        "Pathfinder adapter does not exist."@
    } else {
        "Command failed: "@ + stderr
    }
}

/// The message when removing the route adapter failed with `stderr`.
pub fn remove_adapter_error(stderr: &str) -> (res: String)
    ensures
        res@ == remove_adapter_error_spec(stderr@),
{
    if contains(stderr, "Hyper-V was unable to find a virtual switch with name \"Pathfinder Adapter\"") {
        "Pathfinder adapter does not exist.".to_owned()
    } else {
        let mut s = "Command failed: ".to_owned();
        push_str(&mut s, stderr);
        s
    }
}

/// The provider shown after the public address: the trimmed answer in
/// parentheses, or nothing when the answer is blank.
pub fn isp_label(answer: &str) -> (res: String)
    ensures
        trim_spec(answer@).len() == 0 ==> res@.len() == 0,
        trim_spec(answer@).len() != 0 ==> res@ == "("@ + trim_spec(answer@) + ")"@,
{
    let t = trim(answer);
    if t.as_str().is_empty() {
        String::new()
    } else {
        let mut s = "(".to_owned();
        push_str(&mut s, t.as_str());
        push_str(&mut s, ")");
        s
    }
}

/// A public address from an address service's answer: the trimmed
/// answer, unless it is blank.
pub fn public_ip_from(answer: &str) -> (res: Option<String>)
    ensures
        trim_spec(answer@).len() == 0 ==> res is None,
        trim_spec(answer@).len() != 0 ==> (res matches Some(ip) && ip@ == trim_spec(answer@)),
{
    let t = trim(answer);
    if t.as_str().is_empty() {
        None
    } else {
        Some(t)
    }
}

/// The names of the network adapters that are up, one per line of
/// PowerShell's output (read as UTF-8, invalid sequences replaced).
pub fn adapter_names(stdout: &[u8]) -> (res: Vec<String>)
    ensures
        texts(res@) == lines_spec(utf8_lossy_of(stdout@)),
{
    let text = utf8_lossy(stdout);
    lines(text.as_str())
}

/// The PowerShell command that puts the "Pathfinder Adapter" virtual
/// switch on the network adapter `adapter`.
pub fn new_switch_command(adapter: &str) -> (res: String)
    ensures
        res@ == "New-VMSwitch -Name 'Pathfinder Adapter' -NetAdapterName '"@ + adapter@
            + "' -AllowManagementOS $true"@,
{
    let mut s = "New-VMSwitch -Name 'Pathfinder Adapter' -NetAdapterName '".to_owned();
    push_str(&mut s, adapter);
    push_str(&mut s, "' -AllowManagementOS $true");
    s
}

/// The PowerShell command that gives the switch's adapter the MAC address
/// `mac`.
pub fn set_mac_command(mac: &str) -> (res: String)
    ensures
        res@ == "Set-NetAdapter -Name 'vEthernet (Pathfinder Adapter)' -MacAddress "@ + mac@
            + " -Confirm:$false"@,
{
    let mut s = "Set-NetAdapter -Name 'vEthernet (Pathfinder Adapter)' -MacAddress ".to_owned();
    push_str(&mut s, mac);
    push_str(&mut s, " -Confirm:$false");
    s
}

/// The first byte of a MAC address made locally administered and unicast.
pub open spec fn local_unicast(b: u8) -> u8 {
    (b & 0xfc) | 0x02
}

/// Two lower-case hexadecimal digits.
pub open spec fn hex2(b: u8) -> Seq<char> {
    seq![hex_digit((b / 16) as nat), hex_digit((b % 16) as nat)]
}

/// A MAC address from six bytes, the first made locally administered and
/// unicast, written as six hexadecimal pairs joined by '-'.
pub open spec fn mac_text_spec(b: Seq<u8>) -> Seq<char> {
    hex2(local_unicast(b[0])) + "-"@ + hex2(b[1]) + "-"@ + hex2(b[2]) + "-"@ + hex2(b[3]) + "-"@ + hex2(b[4])
        + "-"@ + hex2(b[5])
}

/// Appends two lower-case hexadecimal digits.
fn push_hex2(s: &mut String, b: u8)
    ensures
        final(s)@ == old(s)@ + hex2(b),
{
    push_char(s, hex_char(b / 16));
    push_char(s, hex_char(b % 16));
    assert(s@ =~= old(s)@ + hex2(b));
}

/// The MAC address made of `bytes` (six of them).
pub fn mac_text(bytes: &[u8]) -> (res: String)
    requires
        bytes@.len() == 6,
    ensures
        res@ == mac_text_spec(bytes@),
{
    let mut s = String::new();
    push_hex2(&mut s, (bytes[0] & 0xfc) | 0x02);
    let mut i: usize = 1;
    while i < 6
        invariant
            1 <= i <= 6,
            bytes@.len() == 6,
            s@ == mac_prefix(bytes@, i as int),
        decreases 6 - i,
    {
        push_str(&mut s, "-");
        push_hex2(&mut s, bytes[i]);
        i = i + 1;
    }
    assert(s@ =~= mac_text_spec(bytes@)) by {
        reveal_with_fuel(mac_prefix, 6);
    }
    s
}

/// The first `n` pairs of the MAC address text.
pub open spec fn mac_prefix(b: Seq<u8>, n: int) -> Seq<char>
    decreases n,
{
    if n <= 1 {
        hex2(local_unicast(b[0]))
    } else {
        mac_prefix(b, n - 1) + "-"@ + hex2(b[n - 1])
    }
}

/// Six bytes from the system's random source (`getrandom::fill`), or None
/// when the source fails.  Nothing is promised of the bytes but their
/// number.
#[verifier::external_body]
fn random_bytes() -> (res: Option<Vec<u8>>)
    ensures
        res matches Some(b) ==> b@.len() == 6,
{
    let mut bytes = [0u8; 6];
    getrandom::fill(&mut bytes).ok()?;
    Some(bytes.to_vec())
}

/// A random locally administered unicast MAC address, or None when the
/// system's random source fails.
pub fn random_mac() -> (res: Option<String>)
    ensures
        res matches Some(t) ==> exists|b: Seq<u8>| b.len() == 6 && t@ == mac_text_spec(b),
{
    match random_bytes() {
        Some(bytes) => Some(mac_text(bytes.as_slice())),
        None => None,
    }
}

/// Every generated MAC address is a locally administered unicast one: the
/// two low bits of its first byte are 1 0.
pub proof fn lemma_mac_is_local_unicast(b: u8)
    ensures
        local_unicast(b) & 3 == 2,
{
    assert(((b & 0xfcu8) | 0x02u8) & 3u8 == 2u8) by (bit_vector);
}

} // verus!
