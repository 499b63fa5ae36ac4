//! Start-up of the Windows route finder: replacing itself with a newer
//! copy, and where its helper programs are downloaded from.
use vstd::prelude::*;

use crate::parse::{chars_of, contains, contains_spec, occurs_at, occurs_here};
use crate::text::{push_char, push_str};
use crate::update::same_text;

verus! {

/// `to` before each character of `s` and after the last: what replacing
/// the empty text gives.
pub open spec fn around_each(s: Seq<char>, to: Seq<char>) -> Seq<char>
    decreases s.len(),
{
    if s.len() == 0 {
        to
    } else {
        to + seq![s[0]] + around_each(s.drop_first(), to)
    }
}

/// `s` with every occurrence of `from` replaced by `to`, the occurrences
/// taken from the left without overlapping; an empty `from` occurs at
/// every character boundary (`str::replace`).
pub open spec fn replace_spec(s: Seq<char>, from: Seq<char>, to: Seq<char>) -> Seq<char>
    decreases s.len(),
{
    if from.len() == 0 {
        around_each(s, to)
    } else if s.len() < from.len() {
        s
    } else if s.take(from.len() as int) == from {
        to + replace_spec(s.skip(from.len() as int), from, to)
    } else {
        seq![s[0]] + replace_spec(s.drop_first(), from, to)
    }
}

/// `s` with every occurrence of `from` replaced by `to`.
pub fn replace(s: &str, from: &str, to: &str) -> (res: String)
    ensures
        res@ == replace_spec(s@, from@, to@),
{
    let v = chars_of(s);
    let f = chars_of(from);
    let mut out = String::new();
    let mut i: usize = 0;
    assert(v@.skip(0) =~= v@);
    if f.len() == 0 {
        while i < v.len()
            invariant
                i <= v@.len(),
                v@ == s@,
                out@ + around_each(v@.skip(i as int), to@) == around_each(s@, to@),
            decreases v@.len() - i,
        {
            let ghost rest = v@.skip(i as int);
            assert(rest.drop_first() =~= v@.skip(i + 1));
            assert(rest[0] == v@[i as int]);
            let ghost before = out@;
            push_str(&mut out, to);
            push_char(&mut out, v[i]);
            assert(out@ + around_each(v@.skip(i + 1), to@) =~= before + around_each(rest, to@));
            i = i + 1;
        }
        assert(v@.skip(i as int) =~= Seq::<char>::empty());
        push_str(&mut out, to);
        return out;
    }
    while i < v.len()
        invariant
            i <= v@.len(),
            v@ == s@,
            f@ == from@,
            f@.len() > 0,
            out@ + replace_spec(v@.skip(i as int), f@, to@) == replace_spec(s@, from@, to@),
        decreases v@.len() - i,
    {
        let ghost rest = v@.skip(i as int);
        if f.len() <= v.len() - i && occurs_here(v.as_slice(), f.as_slice(), i) {
            assert(rest.take(f@.len() as int) =~= v@.subrange(i as int, i + f@.len()));
            assert(rest.skip(f@.len() as int) =~= v@.skip(i + f@.len()));
            let ghost before = out@;
            push_str(&mut out, to);
            assert(out@ + replace_spec(v@.skip(i + f@.len()), f@, to@) =~= before + replace_spec(rest, f@, to@));
            i = i + f.len();
        } else {
            proof {
                if rest.len() >= f@.len() {
                    assert(rest.take(f@.len() as int) =~= v@.subrange(i as int, i + f@.len()));
                }
            }
            assert(rest.drop_first() =~= v@.skip(i + 1));
            assert(rest[0] == v@[i as int]);
            let ghost before = out@;
            push_char(&mut out, v[i]);
            assert(out@ + replace_spec(v@.skip(i + 1), f@, to@) =~= before + replace_spec(rest, f@, to@));
            i = i + 1;
        }
    }
    assert(v@.skip(i as int) =~= Seq::<char>::empty());
    assert(out@ + Seq::<char>::empty() =~= out@);
    out
}

/// What the route finder does first with its own executable.
#[derive(Clone, Debug)]
pub enum StartupStep {
    /// It runs as the temporary copy: copy itself over the installed
    /// executable at this path, start that and exit.
    RelaunchInstalled { installed_path: String },
    /// It runs as the installed executable: delete a temporary copy left
    /// at this path.
    RemoveTemporaryCopy { temp_path: String },
}

/// The name of the running program (`base`) with ".exe".
pub open spec fn installed_name(base: Seq<char>) -> Seq<char> {
    base + ".exe"@
}

/// The name of the temporary copy of the program (`base`).
pub open spec fn temporary_name(base: Seq<char>) -> Seq<char> {
    base + "-temp.exe"@
}

/// The first step for the executable at `exec_path`, named `base_name`:
/// a temporary copy hands over to the installed executable, which removes
/// a temporary copy.
pub fn startup_step(exec_path: &str, base_name: &str) -> (res: StartupStep)
    ensures
        ({
            let orig = installed_name(base_name@);
            let temp = temporary_name(base_name@);
            if contains_spec(exec_path@, temp) {
                res matches StartupStep::RelaunchInstalled { installed_path } && installed_path@
                    == replace_spec(exec_path@, temp, orig)
            } else {
                res matches StartupStep::RemoveTemporaryCopy { temp_path } && temp_path@
                    == replace_spec(exec_path@, orig, temp)
            }
        }),
{
    let mut orig = base_name.to_owned();
    push_str(&mut orig, ".exe");
    let mut temp = base_name.to_owned();
    push_str(&mut temp, "-temp.exe");
    proof {
        reveal_strlit(".exe");
        reveal_strlit("-temp.exe");
    }
    if contains(exec_path, temp.as_str()) {
        StartupStep::RelaunchInstalled { installed_path: replace(exec_path, temp.as_str(), orig.as_str()) }
    } else {
        StartupStep::RemoveTemporaryCopy { temp_path: replace(exec_path, orig.as_str(), temp.as_str()) }
    }
}

/// Where the route finder downloads itself into when it updates: its path
/// with the installed name replaced by the temporary one.
pub fn self_update_path(exec_path: &str, base_name: &str) -> (res: String)
    ensures
        res@ == replace_spec(exec_path@, installed_name(base_name@), temporary_name(base_name@)),
{
    let mut orig = base_name.to_owned();
    push_str(&mut orig, ".exe");
    let mut temp = base_name.to_owned();
    push_str(&mut temp, "-temp.exe");
    proof {
        reveal_strlit(".exe");
    }
    replace(exec_path, orig.as_str(), temp.as_str())
}

/// Whether the route finder must update itself: the server's release
/// differs from its own.
pub fn needs_self_update(own_release: &str, server_release: &str) -> (res: bool)
    ensures
        res == (own_release@ != server_release@),
{
    !same_text(own_release, server_release)
}

/// Whether a helper program must be downloaded again: it is missing, or
/// its checksum is not the published one.
pub fn needs_download(present: bool, checksum_ok: bool) -> (res: bool)
    ensures
        res == (!present || !checksum_ok),
{
    !present || !checksum_ok
}

/// Where the route finder fetches the server's current release.
pub fn release_url(host: &str) -> (res: String)
    ensures
        res@ == "https://"@ + host@ + ":80/pkgrel/windows-pf"@,
{
    let mut s = "https://".to_owned();
    push_str(&mut s, host);
    push_str(&mut s, ":80/pkgrel/windows-pf");
    s
}

/// Where the route finder downloads its own newer release.
pub fn self_download_url(host: &str) -> (res: String)
    ensures
        res@ == "https://"@ + host@ + ":80/bin/pathfinder.exe"@,
{
    let mut s = "https://".to_owned();
    push_str(&mut s, host);
    push_str(&mut s, ":80/bin/pathfinder.exe");
    s
}

/// Where the signed Windows build of the helper `program` is downloaded.
pub fn signed_helper_url(host: &str, program: &str) -> (res: String)
    ensures
        res@ == "https://"@ + host@ + ":80/bin/"@ + program@ + "/"@ + program@ + "-win-signed-amd64.zst"@,
{
    let mut s = "https://".to_owned();
    push_str(&mut s, host);
    push_str(&mut s, ":80/bin/");
    push_str(&mut s, program);
    push_str(&mut s, "/");
    push_str(&mut s, program);
    push_str(&mut s, "-win-signed-amd64.zst");
    s
}

/// The checksum listed for the program `name` in a table of
/// (program, checksum) pairs: the first entry with that name.
pub open spec fn lookup_spec(table: Seq<(Seq<char>, Seq<char>)>, name: Seq<char>) -> Option<Seq<char>>
    decreases table.len(),
{
    if table.len() == 0 {
        None
    } else if table[0].0 == name {
        Some(table[0].1)
    } else {
        lookup_spec(table.drop_first(), name)
    }
}

/// The texts of a table of (program, checksum) pairs.
pub open spec fn table_texts(table: Seq<(&str, &str)>) -> Seq<(Seq<char>, Seq<char>)> {
    table.map_values(|e: (&str, &str)| (e.0@, e.1@))
}

/// The checksum listed for the program `name`.
pub fn lookup_checksum(table: &[(&str, &str)], name: &str) -> (res: Option<String>)
    ensures
        match res {
            Some(c) => lookup_spec(table_texts(table@), name@) == Some(c@),
            None => lookup_spec(table_texts(table@), name@) is None,
        },
{
    let ghost t = table_texts(table@);
    let mut i: usize = 0;
    assert(t.skip(0) =~= t);
    while i < table.len()
        invariant
            i <= table@.len(),
            t == table_texts(table@),
            lookup_spec(t, name@) == lookup_spec(t.skip(i as int), name@),
        decreases table@.len() - i,
    {
        let (n, c) = table[i];
        assert(t.skip(i as int)[0] == (n@, c@));
        assert(t.skip(i as int).drop_first() =~= t.skip(i + 1));
        if same_text(n, name) {
            return Some(c.to_owned());
        }
        i = i + 1;
    }
    assert(t.skip(i as int) =~= Seq::<(Seq<char>, Seq<char>)>::empty());
    None
}

} // verus!
