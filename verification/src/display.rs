//! Text shown in the main window: byte counts, optional values and the
//! status of saved keys.
use vstd::prelude::*;

use crate::app_config::Key;
use crate::parse::{chars_of, regex_last_capture, regex_last_capture_of, trim, trim_spec};
use crate::text::{decimal, digit, digit_char, push_char, push_decimal, push_str};

verus! {

/// One kibibyte.
pub const KB: u64 = 1024;
/// One mebibyte.
pub const MB: u64 = 1048576;
/// One gibibyte.
pub const GB: u64 = 1073741824;

/// 2^53: below it every integer is exactly a 64-bit float.
pub const F64_EXACT_LIMIT: u128 = 9007199254740992;

/// The spacing of 64-bit floats around `b`: the least power of two `p`
/// (starting from `p`, at most `steps` doublings) with `b < p * 2^53`.
pub open spec fn float_spacing(b: nat, p: nat, lim: nat, steps: nat) -> nat
    decreases steps,
{
    if steps == 0 || b < lim {
        p
    } else {
        float_spacing(b, 2 * p, 2 * lim, (steps - 1) as nat)
    }
}

/// `n / d` rounded to the nearest integer, ties to the even one.
pub open spec fn round_half_even(n: nat, d: nat) -> nat {
    let q = n / d;
    let r = n % d;
    if 2 * r > d || (2 * r == d && q % 2 == 1) {
        q + 1
    } else {
        q
    }
}

/// The value of `b as f64`: `b` rounded to 53 significant bits, ties to even.
pub open spec fn as_f64_value(b: nat) -> nat {
    let p = float_spacing(b, 1, F64_EXACT_LIMIT as nat, 11);
    round_half_even(b, p) * p
}

/// `v / unit` written with two decimals, rounded ties-to-even (the way
/// `{:.2}` writes an exactly known value).
pub open spec fn two_decimals(v: nat, unit: nat) -> Seq<char> {
    let c = round_half_even(v * 100, unit);
    decimal(c / 100) + seq!['.', digit_char((c / 10) % 10), digit_char(c % 10)]
}

/// A byte count as shown to the user: bytes below 1 KiB, otherwise the
/// largest of KiB, MiB or GiB it reaches, with two decimals.
pub open spec fn humanize_bytes_spec(bytes: u64) -> Seq<char> {
    if bytes >= GB {
        two_decimals(as_f64_value(bytes as nat), GB as nat) + " GB"@
    } else if bytes >= MB {
        two_decimals(as_f64_value(bytes as nat), MB as nat) + " MB"@
    } else if bytes >= KB {
        two_decimals(as_f64_value(bytes as nat), KB as nat) + " KB"@
    } else {
        decimal(bytes as nat) + " B"@
    }
}

/// The exact value of `b as f64`.
fn f64_value(b: u64) -> (v: u128)
    ensures
        v == as_f64_value(b as nat),
        v <= 18446744073709551616,
{
    let mut p: u128 = 1;
    let mut lim: u128 = F64_EXACT_LIMIT;
    let mut steps: u64 = 11;
    while steps > 0 && (b as u128) >= lim
        invariant
            float_spacing(b as nat, p as nat, lim as nat, steps as nat)
                == float_spacing(b as nat, 1, F64_EXACT_LIMIT as nat, 11),
            lim == p * F64_EXACT_LIMIT,
            p == 1 || p == 2 || p == 4 || p == 8 || p == 16 || p == 32 || p == 64 || p == 128
                || p == 256 || p == 512 || p == 1024 || p == 2048,
            steps <= 11,
            steps == 0 ==> p == 2048,
            steps == 1 ==> p == 1024,
            steps == 2 ==> p == 512,
            steps == 3 ==> p == 256,
            steps == 4 ==> p == 128,
            steps == 5 ==> p == 64,
            steps == 6 ==> p == 32,
            steps == 7 ==> p == 16,
            steps == 8 ==> p == 8,
            steps == 9 ==> p == 4,
            steps == 10 ==> p == 2,
            steps == 11 ==> p == 1,
        decreases steps,
    {
        p = p * 2;
        lim = lim * 2;
        steps = steps - 1;
    }
    assert((b as u128) < lim) by {
        if steps == 0 {
            assert(lim == 2048 * F64_EXACT_LIMIT);
        }
    }
    let bb = b as u128;
    let q = bb / p;
    let r = bb % p;
    assert(q < F64_EXACT_LIMIT) by (nonlinear_arith)
        requires
            bb < lim,
            lim == p * F64_EXACT_LIMIT,
            q == bb / p,
            p >= 1,
    ;
    let qq = if 2 * r > p || (2 * r == p && q % 2 == 1) { q + 1 } else { q };
    assert(qq * p <= 18446744073709551616) by (nonlinear_arith)
        requires
            qq <= F64_EXACT_LIMIT,
            p <= 2048,
    ;
    qq * p
}

/// Appends `v / unit` with two decimals.
fn push_two_decimals(s: &mut String, v: u128, unit: u128)
    requires
        v <= 18446744073709551616,
        1024 <= unit <= 1073741824,
    ensures
        final(s)@ == old(s)@ + two_decimals(v as nat, unit as nat),
{
    let n = v * 100;
    let q = n / unit;
    let r = n % unit;
    assert(q <= 1801439850948198400u128) by (nonlinear_arith)
        requires
            q == n / unit,
            n <= 1844674407370955161600u128,
            unit >= 1024,
    ;
    let c = if 2 * r > unit || (2 * r == unit && q % 2 == 1) { q + 1 } else { q };
    push_decimal(s, c / 100);
    push_char(s, '.');
    push_char(s, digit((c / 10) % 10));
    push_char(s, digit(c % 10));
    assert(s@ =~= old(s)@ + two_decimals(v as nat, unit as nat));
}

/// A byte count in the largest binary unit it reaches, e.g. "1.50 KB".
pub fn humanize_bytes(bytes: u64) -> (res: String)
    ensures
        res@ == humanize_bytes_spec(bytes),
{
    let mut s = String::new();
    if bytes >= GB {
        push_two_decimals(&mut s, f64_value(bytes), GB as u128);
        push_str(&mut s, " GB");
    } else if bytes >= MB {
        push_two_decimals(&mut s, f64_value(bytes), MB as u128);
        push_str(&mut s, " MB");
    } else if bytes >= KB {
        push_two_decimals(&mut s, f64_value(bytes), KB as u128);
        push_str(&mut s, " KB");
    } else {
        push_decimal(&mut s, bytes as u128);
        push_str(&mut s, " B");
    }
    assert(s@ =~= humanize_bytes_spec(bytes));
    s
}

/// The name of the first saved key, selected when none is.
pub fn first_key_id(keys: &[Key]) -> (res: Option<String>)
    ensures
        keys@.len() == 0 ==> res is None,
        keys@.len() > 0 ==> res == keys@[0].id,
{
    if keys.len() == 0 {
        None
    } else {
        match &keys[0].id {
            Some(s) => Some(s.clone()),
            None => None,
        }
    }
}

/// Whether the key at `i` is named `name`.
pub open spec fn named(k: Key, name: Seq<char>) -> bool {
    k.id matches Some(id) && id@ == name
}

/// Looking up the selected key reads the name of each key until the
/// selected one: that needs a selection whenever there are keys, and a
/// name on every key read.
pub open spec fn lookup_defined(keys: Seq<Key>, selected: Option<String>) -> bool {
    keys.len() > 0 ==> (selected matches Some(sel) && forall|i: int| 0 <= i < keys.len()
        && (forall|j: int| 0 <= j < i ==> !named(#[trigger] keys[j], sel@)) ==> (#[trigger] keys[i]).id is Some)
}

/// The position of the first key named `selected`.
pub fn selected_key_index(keys: &[Key], selected: &Option<String>) -> (res: Option<usize>)
    requires
        lookup_defined(keys@, *selected),
    ensures
        match res {
            Some(i) => i < keys@.len() && named(keys@[i as int], selected->0@)
                && forall|j: int| 0 <= j < i ==> !named(#[trigger] keys@[j], selected->0@),
            None => keys@.len() == 0 || forall|j: int| 0 <= j < keys@.len() ==> !named(#[trigger] keys@[j], selected->0@),
        },
{
    if keys.len() == 0 {
        return None;
    }
    let sel = match selected {
        Some(s) => s,
        None => return None,
    };
    let mut i: usize = 0;
    while i < keys.len()
        invariant
            i <= keys@.len(),
            *selected == Some(*sel),
            lookup_defined(keys@, *selected),
            forall|j: int| 0 <= j < i ==> !named(#[trigger] keys@[j], sel@),
        decreases keys@.len() - i,
    {
        assert(keys@[i as int].id is Some);
        let id = match &keys[i].id {
            Some(id) => id,
            None => return None,
        };
        if crate::update::same_text(id.as_str(), sel.as_str()) {
            return Some(i);
        }
        i = i + 1;
    }
    None
}

/// The address, private key and subscription state of the selected key,
/// or empty values when no key is selected.  The selected key must carry
/// an address and a subscription state.
pub fn selected_key_details(keys: &[Key], selected: &Option<String>) -> (res: (String, String, bool))
    requires
        lookup_defined(keys@, *selected),
        forall|i: int| 0 <= i < keys@.len() && selected is Some && named(keys@[i], selected->0@)
            && (forall|j: int| 0 <= j < i ==> !named(#[trigger] keys@[j], selected->0@))
            ==> keys@[i].ip is Some && keys@[i].is_active is Some,
    ensures
        match selected_key_spec(keys@, *selected) {
            Some(k) => res.0@ == k.ip->0@ && res.1@ == k.priv_key@ && res.2 == k.is_active->0,
            None => res.0@.len() == 0 && res.1@.len() == 0 && !res.2,
        },
{
    match selected_key_index(keys, selected) {
        Some(i) => {
            let k = &keys[i];
            let ip = match &k.ip {
                Some(ip) => ip.clone(),
                None => String::new(),
            };
            let active = match k.is_active {
                Some(a) => a,
                None => false,
            };
            (ip, k.priv_key.clone(), active)
        },
        None => (String::new(), String::new(), false),
    }
}

/// The first key named `selected`, if any.
pub open spec fn selected_key_spec(keys: Seq<Key>, selected: Option<String>) -> Option<Key> {
    if selected is Some && exists|i: int| 0 <= i < keys.len() && named(keys[i], selected->0@) {
        let i = choose|i: int| 0 <= i < keys.len() && named(keys[i], selected->0@)
            && forall|j: int| 0 <= j < i ==> !named(#[trigger] keys[j], selected->0@);
        Some(keys[i])
    } else {
        None
    }
}

/// The "Handshake" row: how long ago the last handshake was, or nothing
/// when there was none (a handshake time of zero means none).
pub open spec fn handshake_text_spec(handshake_secs: Option<u64>, elapsed_secs: u64) -> Seq<char> {
    match handshake_secs {
        Some(h) => if h == 0 {
            Seq::empty()
        } else {
            decimal(elapsed_secs as nat) + " seconds ago"@
        },
        None => Seq::empty(),
    }
}

/// The "Handshake" row, from the handshake time in seconds since the epoch
/// and the whole seconds elapsed since it.
pub fn handshake_text(handshake_secs: Option<u64>, elapsed_secs: u64) -> (res: String)
    ensures
        res@ == handshake_text_spec(handshake_secs, elapsed_secs),
{
    let mut s = String::new();
    match handshake_secs {
        Some(h) => if h != 0 {
            push_decimal(&mut s, elapsed_secs as u128);
            push_str(&mut s, " seconds ago");
        },
        None => {},
    }
    assert(s@ =~= handshake_text_spec(handshake_secs, elapsed_secs));
    s
}

/// The "VPN State" row.
pub fn vpn_state_text(vpn_running: bool, waiting_for_tunnel: bool, handshake_known: bool) -> (res: &'static str)
    ensures
        !vpn_running && !waiting_for_tunnel ==> res@ == "Not Running"@,
        waiting_for_tunnel ==> res@ == "Waiting for Tunnel"@,
        vpn_running && !waiting_for_tunnel && !handshake_known ==> res@ == "Connecting..."@,
        vpn_running && !waiting_for_tunnel && handshake_known ==> res@ == "Connected"@,
{
    if !vpn_running && !waiting_for_tunnel {
        "Not Running"
    } else if waiting_for_tunnel {
        "Waiting for Tunnel"
    } else if !handshake_known {
        "Connecting..."
    } else {
        "Connected"
    }
}

/// Whether `c` may appear in base64 text (letters, digits, '+', '/').
pub open spec fn is_base64_char(c: char) -> bool {
    ('A' <= c && c <= 'Z') || ('a' <= c && c <= 'z') || ('0' <= c && c <= '9') || c == '+' || c == '/'
}

/// Whether `t` is a WireGuard key in base64: 43 base64 characters and a
/// final '='.
pub open spec fn is_wg_key(t: Seq<char>) -> bool {
    &&& t.len() == 44
    &&& forall|i: int| 0 <= i < 43 ==> is_base64_char(#[trigger] t[i])
    &&& t[43] == '='
}

/// Whether `t` is a WireGuard key in base64.
pub fn wg_key_valid(t: &str) -> (res: bool)
    ensures
        res == is_wg_key(t@),
{
    let v = chars_of(t);
    if v.len() != 44 {
        return false;
    }
    let mut i: usize = 0;
    while i < 43
        invariant
            v@ == t@,
            v@.len() == 44,
            i <= 43,
            forall|k: int| 0 <= k < i ==> is_base64_char(#[trigger] v@[k]),
        decreases 43 - i,
    {
        let c = v[i];
        if !(('A' <= c && c <= 'Z') || ('a' <= c && c <= 'z') || ('0' <= c && c <= '9') || c == '+' || c == '/') {
            assert(!is_base64_char(v@[i as int]));
            return false;
        }
        i = i + 1;
    }
    v[43] == '='
}

/// What the key dialog makes of its input: the key once trimmed, whether
/// the input is blank, and whether the trimmed text is a key.
pub fn check_key_input(input: &str) -> (res: (String, bool, bool))
    ensures
        res.0@ == trim_spec(input@),
        res.1 == (trim_spec(input@).len() == 0),
        res.2 == is_wg_key(trim_spec(input@)),
{
    let t = trim(input);
    let empty = t.as_str().is_empty();
    let valid = wg_key_valid(t.as_str());
    (t, empty, valid)
}

/// The hint under the key dialog's input.
pub fn key_input_hint(is_blank: bool, is_valid: bool) -> (res: &'static str)
    ensures
        is_blank ==> res@ == "Please enter key"@,
        !is_blank && !is_valid ==> res@ == "Please enter a valid key"@,
        !is_blank && is_valid ==> res@.len() == 0,
{
    if is_blank {
        "Please enter key"
    } else if !is_valid {
        "Please enter a valid key"
    } else {
        proof {
            reveal_strlit("");
        }
        ""
    }
}

/// The pattern of a "PrivateKey = ..." line in a WireGuard configuration.
pub const PRIVATE_KEY_PATTERN: &'static str = "(?m)^\\s*PrivateKey\\s*=\\s*(\\S+)\\s*$";

/// The private key of a WireGuard configuration file: the value of its last
/// "PrivateKey = ..." line, or the message naming the file (`path_text`)
/// when it has none.
pub fn private_key_from_config(content: &str, path_text: &str) -> (res: Result<String, String>)
    ensures
        match res {
            Ok(k) => regex_last_capture_of(PRIVATE_KEY_PATTERN@, content@, 1) == Some(k@),
            Err(e) => regex_last_capture_of(PRIVATE_KEY_PATTERN@, content@, 1) is None
                && e@ == path_text@ + " Not a valid Wireguard config file"@,
        },
{
    match regex_last_capture(PRIVATE_KEY_PATTERN, content, 1) {
        Some(k) => Ok(k),
        None => {
            let mut msg = path_text.to_owned();
            push_str(&mut msg, " Not a valid Wireguard config file");
            Err(msg)
        },
    }
}

/// The question asked before a saved key is deleted.
pub fn delete_prompt(key_name: &str) -> (res: String)
    ensures
        res@ == "Are you sure you want to delete this config?\n "@ + key_name@,
{
    let mut s = "Are you sure you want to delete this config?\n ".to_owned();
    push_str(&mut s, key_name);
    s
}

} // verus!
