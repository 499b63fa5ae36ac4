//! What the API answers about keys and about the WireGuard peer, read into
//! the library's own values.
use vstd::prelude::*;

use crate::app_config::Key;
use crate::parse::{chars_of, string_from, texts, trim, trim_spec};
use crate::text::push_str;

verus! {

/// An IP address as its number: 32 bits for IPv4, 128 for IPv6, the
/// first octet or group being the most significant.
#[derive(Clone, Copy, PartialEq, Eq, Structural, Debug)]
pub enum IpAddress {
    V4(u32),
    V6(u128),
}

/// An IP address with a prefix length, as WireGuard's allowed IPs and
/// interface addresses are written ("10.0.0.2/32").
#[derive(Clone, Copy, PartialEq, Eq, Structural, Debug)]
pub struct IpMask {
    pub address: IpAddress,
    pub cidr: u8,
}

/// The longest prefix of an address family: 32 bits for IPv4, 128 for IPv6.
pub open spec fn max_cidr(a: IpAddress) -> u8 {
    match a {
        IpAddress::V4(_) => 32,
        IpAddress::V6(_) => 128,
    }
}

/// What `defguard_wireguard_rs::net::IpAddrMask::from_str` reads from `s`:
/// the address and prefix, or the text of its error.
pub uninterp spec fn ip_mask_of(s: Seq<char>) -> MaskOutcome;

/// An address with its prefix, or the text of why it cannot be read.
pub type MaskOutcome = Result<IpMask, Seq<char>>;

/// `defguard_wireguard_rs::net::IpAddrMask::from_str`, its address taken as
/// a number, and its error as text.  Trusted: the result is the named
/// one, and its prefix length is at most the family's (the crate refuses
/// longer ones).
#[verifier::external_body]
pub(crate) fn parse_ip_mask(s: &str) -> (res: Result<IpMask, String>)
    ensures
        match res {
            Ok(m) => ip_mask_of(s@) == MaskOutcome::Ok(m),
            Err(e) => ip_mask_of(s@) == MaskOutcome::Err(e@),
        },
        res matches Ok(m) ==> m.cidr <= max_cidr(m.address),
{
    let mask: defguard_wireguard_rs::net::IpAddrMask = match s.parse() {
        Ok(mask) => mask,
        Err(e) => return Err(format!("{}", e)),
    };
    let address = match mask.address {
        core::net::IpAddr::V4(a) => IpAddress::V4(u32::from(a)),
        core::net::IpAddr::V6(a) => IpAddress::V6(u128::from(a)),
    };
    Ok(IpMask { address, cidr: mask.cidr })
}

/// The pieces of `s` between the separators `sep`, where `cur` is the start
/// of the current piece (`str::split` with a character).
pub open spec fn split_from(s: Seq<char>, sep: char, cur: Seq<char>) -> Seq<Seq<char>>
    decreases s.len(),
{
    if s.len() == 0 {
        seq![cur]
    } else if s[0] == sep {
        seq![cur] + split_from(s.drop_first(), sep, Seq::empty())
    } else {
        split_from(s.drop_first(), sep, cur.push(s[0]))
    }
}

/// The pieces of `s` between the separators `sep`; there is always one
/// more piece than separators.
pub open spec fn split_spec(s: Seq<char>, sep: char) -> Seq<Seq<char>> {
    split_from(s, sep, Seq::empty())
}

/// The pieces of `s` between the separators `sep`.
pub fn split(s: &str, sep: char) -> (res: Vec<String>)
    ensures
        texts(res@) == split_spec(s@, sep),
{
    let v = chars_of(s);
    let mut res: Vec<String> = Vec::new();
    let mut start: usize = 0;
    let mut i: usize = 0;
    assert(v@.skip(0) =~= v@);
    assert(v@.subrange(0, 0) =~= Seq::<char>::empty());
    assert(texts(res@) =~= Seq::<Seq<char>>::empty());
    while i < v.len()
        invariant
            start <= i <= v@.len(),
            v@ == s@,
            texts(res@) + split_from(v@.skip(i as int), sep, v@.subrange(start as int, i as int))
                == split_spec(s@, sep),
        decreases v@.len() - i,
    {
        let ghost before = texts(res@);
        let ghost cur = v@.subrange(start as int, i as int);
        assert(v@.skip(i as int).drop_first() =~= v@.skip(i + 1));
        assert(v@.skip(i as int)[0] == v@[i as int]);
        if v[i] == sep {
            let piece = string_from(v.as_slice(), start, i);
            res.push(piece);
            assert(texts(res@) =~= before + seq![cur]);
            i = i + 1;
            start = i;
            assert(v@.subrange(start as int, i as int) =~= Seq::<char>::empty());
        } else {
            assert(cur.push(v@[i as int]) =~= v@.subrange(start as int, i + 1));
            i = i + 1;
        }
    }
    let ghost before = texts(res@);
    let piece = string_from(v.as_slice(), start, v.len());
    res.push(piece);
    assert(texts(res@) =~= before + seq![v@.subrange(start as int, i as int)]);
    assert(v@.skip(i as int) =~= Seq::<char>::empty());
    res
}

/// The allowed IPs read from a list, or the message for the first entry
/// that cannot be read.
pub type IpsOutcome = Result<Seq<IpMask>, Seq<char>>;

/// A peer's public key, allowed IPs and MTU, or the message for what is
/// missing or unreadable.
pub type PeerOutcome = Result<(Seq<char>, Seq<IpMask>, u32), Seq<char>>;

/// The message for an allowed IP the API sent that cannot be read, with
/// the reader's error text.
pub open spec fn invalid_ip_message(ip: Seq<char>, error: Seq<char>) -> Seq<char> {
    "Invalid allowed IP '"@ + ip + "': "@ + error
}

/// The allowed IPs in the pieces of the API's list, each read after
/// trimming, or the message for the first piece that cannot be read.
pub open spec fn allowed_ips_spec(pieces: Seq<Seq<char>>) -> IpsOutcome
    decreases pieces.len(),
{
    if pieces.len() == 0 {
        Ok(Seq::empty())
    } else {
        match ip_mask_of(trim_spec(pieces[0])) {
            Err(e) => Err(invalid_ip_message(trim_spec(pieces[0]), e)),
            Ok(m) => match allowed_ips_spec(pieces.drop_first()) {
                Ok(rest) => Ok(seq![m] + rest),
                Err(e) => Err(e),
            },
        }
    }
}

/// The allowed IPs in a comma-separated list from the API.
pub fn parse_allowed_ips(list: &str) -> (res: Result<Vec<IpMask>, String>)
    ensures
        match res {
            Ok(v) => allowed_ips_spec(split_spec(list@, ',')) == IpsOutcome::Ok(v@),
            Err(e) => allowed_ips_spec(split_spec(list@, ',')) == IpsOutcome::Err(e@),
        },
{
    let pieces = split(list, ',');
    let ghost ps = texts(pieces@);
    let mut out: Vec<IpMask> = Vec::new();
    let mut i: usize = 0;
    assert(ps.skip(0) =~= ps);
    while i < pieces.len()
        invariant
            i <= pieces@.len(),
            ps == texts(pieces@),
            ps == split_spec(list@, ','),
            forall|r: Seq<IpMask>| allowed_ips_spec(ps.skip(i as int)) == IpsOutcome::Ok(r)
                ==> allowed_ips_spec(ps) == IpsOutcome::Ok(out@ + r),
            forall|e: Seq<char>| allowed_ips_spec(ps.skip(i as int)) == IpsOutcome::Err(e)
                ==> allowed_ips_spec(ps) == IpsOutcome::Err(e),
        decreases pieces@.len() - i,
    {
        assert(ps.skip(i as int)[0] == pieces@[i as int]@);
        assert(ps.skip(i as int).drop_first() =~= ps.skip(i + 1));
        let ip = trim(pieces[i].as_str());
        match parse_ip_mask(ip.as_str()) {
            Err(e) => {
                let mut msg = "Invalid allowed IP '".to_owned();
                push_str(&mut msg, ip.as_str());
                push_str(&mut msg, "': ");
                push_str(&mut msg, e.as_str());
                return Err(msg);
            },
            Ok(m) => {
                let ghost old_out = out@;
                out.push(m);
                assert forall|r: Seq<IpMask>| allowed_ips_spec(ps.skip(i + 1)) == IpsOutcome::Ok(r)
                    implies allowed_ips_spec(ps) == IpsOutcome::Ok(out@ + r) by {
                    assert(allowed_ips_spec(ps.skip(i as int)) == IpsOutcome::Ok(seq![m] + r));
                    assert(old_out + (seq![m] + r) =~= out@ + r);
                }
            },
        }
        i = i + 1;
    }
    assert(ps.skip(i as int) =~= Seq::<Seq<char>>::empty());
    assert(out@ + Seq::<IpMask>::empty() =~= out@);
    Ok(out)
}

/// What the API sends about the WireGuard peer to use.
#[derive(Clone, Debug)]
pub struct PeerConfig {
    pub server_public_key: String,
    pub allowed_ips: Vec<IpMask>,
    pub mtu: Option<u32>,
}

/// The peer configuration made of the fields the API sent, or the message
/// for the first missing or unreadable one (public key, allowed IPs, MTU).
pub open spec fn peer_config_spec(key: Option<Seq<char>>, allowed: Option<Seq<char>>, mtu: Option<u64>) -> PeerOutcome {
    match key {
        None => Err("Missing server_public_key in response"@),
        Some(k) => match allowed {
            None => Err("Missing allowed_ips in response"@),
            Some(a) => match allowed_ips_spec(split_spec(a, ',')) {
                Err(e) => Err(e),
                Ok(ips) => match mtu {
                    None => Err("Missing mtu in response"@),
                    Some(m) => if m > u32::MAX {
                        Err("mtu is too large for u32"@)
                    } else {
                        Ok((k, ips, m as u32))
                    },
                },
            },
        },
    }
}

/// The contents of an optional string.
pub open spec fn opt_text(t: Option<String>) -> Option<Seq<char>> {
    match t {
        Some(s) => Some(s@),
        None => None,
    }
}

/// Whether `res` is the outcome `spec` describes.
pub open spec fn peer_config_matches(res: Result<PeerConfig, String>, spec: PeerOutcome) -> bool {
    match res {
        Ok(c) => spec matches Ok((k, ips, m)) && c.server_public_key@ == k && c.allowed_ips@ == ips
            && c.mtu == Some(m),
        Err(e) => spec matches Err(msg) && e@ == msg,
    }
}

/// Builds the peer configuration from the fields of the API's answer.
pub fn peer_config_from_fields(server_public_key: Option<String>, allowed_ips: Option<String>, mtu: Option<u64>) -> (res: Result<PeerConfig, String>)
    ensures
        peer_config_matches(res, peer_config_spec(opt_text(server_public_key), opt_text(allowed_ips), mtu)),
{
    let key = match server_public_key {
        Some(k) => k,
        None => return Err("Missing server_public_key in response".to_owned()),
    };
    let list = match allowed_ips {
        Some(a) => a,
        None => return Err("Missing allowed_ips in response".to_owned()),
    };
    let ips = match parse_allowed_ips(list.as_str()) {
        Ok(v) => v,
        Err(e) => return Err(e),
    };
    let m = match mtu {
        Some(m) => m,
        None => return Err("Missing mtu in response".to_owned()),
    };
    if m > 4294967295u64 {
        return Err("mtu is too large for u32".to_owned());
    }
    Ok(PeerConfig { server_public_key: key, allowed_ips: ips, mtu: Some(m as u32) })
}

/// Whether `body` is a JSON document.
pub uninterp spec fn json_valid_of(body: Seq<char>) -> bool;

/// The string at member `field` of the JSON document `body` (None when it
/// is missing or not a string).
pub uninterp spec fn json_str_field_of(body: Seq<char>, field: Seq<char>) -> Option<Seq<char>>;

/// The unsigned integer at member `field` of the JSON document `body`
/// (None when it is missing or not an unsigned 64-bit integer).
pub uninterp spec fn json_u64_field_of(body: Seq<char>, field: Seq<char>) -> Option<u64>;

/// `serde_json::from_str::<serde_json::Value>` succeeds.  Trusted: the
/// result is the named one.
#[verifier::external_body]
fn json_valid(body: &str) -> (res: bool)
    ensures
        res == json_valid_of(body@),
{
    serde_json::from_str::<serde_json::Value>(body).is_ok()
}

/// `serde_json::Value` indexing by `field` then `as_str`.  Trusted: the
/// result is the named one.
#[verifier::external_body]
fn json_str_field(body: &str, field: &str) -> (res: Option<String>)
    ensures
        opt_text(res) == json_str_field_of(body@, field@),
{
    let v: serde_json::Value = serde_json::from_str(body).ok()?;
    v[field].as_str().map(|s| s.to_string())
}

/// `serde_json::Value` indexing by `field` then `as_u64`.  Trusted: the
/// result is the named one.
#[verifier::external_body]
fn json_u64_field(body: &str, field: &str) -> (res: Option<u64>)
    ensures
        res == json_u64_field_of(body@, field@),
{
    let v: serde_json::Value = serde_json::from_str(body).ok()?;
    v[field].as_u64()
}

/// The peer configuration in the API's answer `body`, or the message
/// shown when it cannot be used; `forbidden` is whether the API refused the
/// key.
pub open spec fn config_reply_spec(forbidden: bool, body: Seq<char>) -> PeerOutcome {
    if forbidden {
        Err("Invalid Key"@)
    } else if !json_valid_of(body) {
        Err("Failed to parse API response"@)
    } else {
        peer_config_spec(
            json_str_field_of(body, "server_public_key"@),
            json_str_field_of(body, "allowed_ips"@),
            json_u64_field_of(body, "mtu"@),
        )
    }
}

/// Reads the API's answer about the peer to use.
pub fn config_from_reply(forbidden: bool, body: &str) -> (res: Result<PeerConfig, String>)
    ensures
        peer_config_matches(res, config_reply_spec(forbidden, body@)),
{
    if forbidden {
        return Err("Invalid Key".to_owned());
    }
    if !json_valid(body) {
        return Err("Failed to parse API response".to_owned());
    }
    peer_config_from_fields(
        json_str_field(body, "server_public_key"),
        json_str_field(body, "allowed_ips"),
        json_u64_field(body, "mtu"),
    )
}

/// The API's answer about one saved key.
#[derive(Clone, Debug)]
pub enum KeyReply {
    /// The API refused the key.
    Forbidden,
    /// What the API reports about the key.
    Info(Key),
}

/// Applies the API's answer about the key at `index`.
pub fn apply_key_reply(keys: &mut Vec<Key>, index: usize, reply: KeyReply)
    requires
        index < old(keys)@.len(),
    ensures
        final(keys)@.len() == old(keys)@.len(),
        forall|j: int| 0 <= j < old(keys)@.len() && j != index ==> final(keys)@[j] == old(keys)@[j],
        match reply {
            KeyReply::Forbidden => {
                let (o, n) = (old(keys)@[index as int], final(keys)@[index as int]);
                &&& n.id matches Some(id) && id@ == "Invalid Key"@
                &&& n.ip == o.ip && n.priv_key == o.priv_key && n.is_active == o.is_active
                &&& n.expiry == o.expiry && n.rx_bytes == o.rx_bytes && n.tx_bytes == o.tx_bytes
            },
            KeyReply::Info(k) => final(keys)@[index as int] == k,
        },
{
    match reply {
        KeyReply::Forbidden => {
            let mut k = keys[index].clone_key();
            k.id = Some("Invalid Key".to_owned());
            keys.set(index, k);
        },
        KeyReply::Info(k) => {
            keys.set(index, k);
        },
    }
}

/// The interface addresses for a key's assigned address: that one
/// address, when it can be read.
pub fn interface_addresses(ip: &str) -> (res: Option<Vec<IpMask>>)
    ensures
        match ip_mask_of(ip@) {
            Ok(m) => res matches Some(v) && v@ == seq![m],
            Err(_) => res is None,
        },
{
    match parse_ip_mask(ip) {
        Ok(m) => {
            let mut v: Vec<IpMask> = Vec::new();
            v.push(m);
            assert(v@ =~= seq![m]);
            Some(v)
        },
        Err(_) => None,
    }
}

} // verus!
