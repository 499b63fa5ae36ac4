//! Helper programs and self-updates: which files exist, where they are
//! downloaded from, and how the update dialog tracks its progress.
use vstd::prelude::*;

use sha2::Digest;

use crate::config_file::ZstdOutcome;
use crate::dialog::{DialogAction, DialogReply};
use crate::parse::{chars_of, lines, lines_spec, string_from, texts, trim, trim_spec};
use crate::text::{decimal, push_char, push_decimal, push_str};

verus! {

/// Operating systems the client is built for.
#[derive(Clone, Copy, PartialEq, Eq, Structural, Debug)]
pub enum OS {
    Darwin,
    Linux,
    Windows,
}

/// Processor architectures the client is built for.
#[derive(Clone, Copy, PartialEq, Eq, Structural, Debug)]
pub enum ARCH {
    Amd64,
    Arm64,
}

/// The programs the client downloads and runs.
#[derive(Clone, Copy, PartialEq, Eq, Structural, Debug)]
pub enum Binary {
    Mbtunnel,
    Udpproxy,
    Wstunnel,
    Librespeed,
    WireguardDll,
}

pub open spec fn arch_text(arch: ARCH) -> Seq<char> {
    match arch {
        ARCH::Amd64 => "amd64"@,
        ARCH::Arm64 => "arm64"@,
    }
}

pub open spec fn os_text(os: OS) -> Seq<char> {
    match os {
        OS::Darwin => "darwin"@,
        OS::Linux => "linux"@,
        OS::Windows => "windows"@,
    }
}

/// The architecture as it appears in download names.
pub fn get_arch_string(arch: ARCH) -> (res: String)
    ensures
        res@ == arch_text(arch),
{
    match arch {
        ARCH::Amd64 => "amd64".to_owned(),
        ARCH::Arm64 => "arm64".to_owned(),
    }
}

/// The operating system as it appears in download names.
pub fn get_os_string(os: OS) -> (res: String)
    ensures
        res@ == os_text(os),
{
    match os {
        OS::Darwin => "darwin".to_owned(),
        OS::Linux => "linux".to_owned(),
        OS::Windows => "windows".to_owned(),
    }
}

impl Binary {
    pub open spec fn name_spec(self) -> Seq<char> {
        match self {
            Binary::Mbtunnel => "mbtunnel"@,
            Binary::Udpproxy => "udpproxy"@,
            Binary::Wstunnel => "wstunnel"@,
            Binary::Librespeed => "librespeed-cli"@,
            Binary::WireguardDll => "wireguard"@,
        }
    }

    /// The program's name on the download server and on disk.
    pub fn name(&self) -> (res: &'static str)
        ensures
            res@ == self.name_spec(),
    {
        match self {
            Binary::Mbtunnel => "mbtunnel",
            Binary::Udpproxy => "udpproxy",
            Binary::Wstunnel => "wstunnel",
            Binary::Librespeed => "librespeed-cli",
            Binary::WireguardDll => "wireguard",
        }
    }
}

/// The download address of `binary` for `os` and `arch` on server `host`.
pub open spec fn binary_url_spec(host: Seq<char>, binary: Binary, os: OS, arch: ARCH) -> Seq<char> {
    "https://"@ + host + "/bin/"@ + binary.name_spec() + "/"@ + binary.name_spec() + "-"@ + os_text(os)
        + "-"@ + arch_text(arch) + ".zst"@
}

/// Where `binary` for `os` and `arch` is downloaded from.
pub fn binary_url(host: &str, binary: &Binary, os: OS, arch: ARCH) -> (res: String)
    ensures
        res@ == binary_url_spec(host@, *binary, os, arch),
{
    let mut s = String::new();
    push_str(&mut s, "https://");
    push_str(&mut s, host);
    push_str(&mut s, "/bin/");
    push_str(&mut s, binary.name());
    push_str(&mut s, "/");
    push_str(&mut s, binary.name());
    push_str(&mut s, "-");
    push_str(&mut s, get_os_string(os).as_str());
    push_str(&mut s, "-");
    push_str(&mut s, get_arch_string(arch).as_str());
    push_str(&mut s, ".zst");
    assert(s@ =~= binary_url_spec(host@, *binary, os, arch));
    s
}

/// Where a program lives: a file name next to the running executable, or
/// one in the application data directory.
#[derive(Clone, Debug)]
pub enum BinaryLocation {
    NextToExecutable(String),
    InAppData(String),
}

/// The file name of `binary` on `os`.  The client itself is updated
/// through a file next to the running executable, named after it
/// (`exec_name`, or `exec_stem` without extension on Windows).
pub open spec fn binary_location_spec(binary: Binary, os: OS, exec_name: Seq<char>, exec_stem: Seq<char>) -> (bool, Seq<char>) {
    if binary == Binary::Mbtunnel {
        if os == OS::Windows {
            (true, exec_stem + ".updatefile.exe"@)
        } else {
            (true, exec_name + ".updatefile"@)
        }
    } else if os == OS::Windows {
        if binary == Binary::WireguardDll {
            (false, binary.name_spec() + ".dll"@)
        } else {
            (false, binary.name_spec() + ".exe"@)
        }
    } else {
        (false, binary.name_spec())
    }
}

/// Where `binary` is kept on `os`, for an executable named `exec_name`
/// (`exec_stem` without its extension).
pub fn binary_location(binary: &Binary, os: OS, exec_name: &str, exec_stem: &str) -> (res: BinaryLocation)
    ensures
        ({
            let (next_to_exe, name) = binary_location_spec(*binary, os, exec_name@, exec_stem@);
            match res {
                BinaryLocation::NextToExecutable(n) => next_to_exe && n@ == name,
                BinaryLocation::InAppData(n) => !next_to_exe && n@ == name,
            }
        }),
{
    let mut s = String::new();
    if *binary == Binary::Mbtunnel {
        if os == OS::Windows {
            push_str(&mut s, exec_stem);
            push_str(&mut s, ".updatefile.exe");
        } else {
            push_str(&mut s, exec_name);
            push_str(&mut s, ".updatefile");
        }
        BinaryLocation::NextToExecutable(s)
    } else {
        push_str(&mut s, binary.name());
        if os == OS::Windows {
            if *binary == Binary::WireguardDll {
                push_str(&mut s, ".dll");
            } else {
                push_str(&mut s, ".exe");
            }
        }
        BinaryLocation::InAppData(s)
    }
}

/// The marker that names a downloaded copy of the client.
pub const UPDATE_MARKER: &'static str = ".updatefile";

/// `name` with its last occurrence of `marker` cut out, if there is one.
pub open spec fn without_last_spec(name: Seq<char>, marker: Seq<char>) -> Option<Seq<char>> {
    if exists|i: int| crate::parse::occurs_at(name, marker, i) {
        let i = choose|i: int| crate::parse::occurs_at(name, marker, i)
            && forall|j: int| crate::parse::occurs_at(name, marker, j) ==> j <= i;
        Some(name.subrange(0, i) + name.subrange(i + marker.len(), name.len() as int))
    } else {
        None
    }
}

/// The executable name an update copy takes over: `exec_name` with its
/// last ".updatefile" removed, or None when it is not an update copy.
pub fn without_update_marker(exec_name: &str) -> (res: Option<String>)
    ensures
        match res {
            Some(n) => without_last_spec(exec_name@, UPDATE_MARKER@) == Some(n@),
            None => without_last_spec(exec_name@, UPDATE_MARKER@) is None,
        },
{
    let v = chars_of(exec_name);
    let m = chars_of(UPDATE_MARKER);
    if m.len() > v.len() {
        assert forall|i: int| !crate::parse::occurs_at(exec_name@, UPDATE_MARKER@, i) by {}
        return None;
    }
    let mut i: usize = v.len() - m.len();
    loop
        invariant
            v@ == exec_name@,
            m@ == UPDATE_MARKER@,
            m@.len() <= v@.len(),
            i <= v@.len() - m@.len(),
            i + m.len() <= v.len(),
            forall|j: int| i < j ==> !crate::parse::occurs_at(exec_name@, UPDATE_MARKER@, j),
        decreases i,
    {
        if crate::parse::occurs_here(v.as_slice(), m.as_slice(), i) {
            let mut s = string_from(v.as_slice(), 0, i);
            let tail = string_from(v.as_slice(), i + m.len(), v.len());
            push_str(&mut s, tail.as_str());
            proof {
                let w = choose|k: int| crate::parse::occurs_at(exec_name@, UPDATE_MARKER@, k)
                    && forall|j: int| crate::parse::occurs_at(exec_name@, UPDATE_MARKER@, j) ==> j <= k;
                assert(crate::parse::occurs_at(exec_name@, UPDATE_MARKER@, i as int)
                    && forall|j: int| crate::parse::occurs_at(exec_name@, UPDATE_MARKER@, j) ==> j <= i);
                assert(w == i);
            }
            return Some(s);
        }
        if i == 0 {
            assert forall|j: int| !crate::parse::occurs_at(exec_name@, UPDATE_MARKER@, j) by {
                if j < 0 {
                }
            }
            return None;
        }
        i = i - 1;
    }
}

/// What the streaming zstd decoder makes of the whole of `data`: the
/// decompressed bytes of its frames, or the text of its error.
pub uninterp spec fn zstd_stream_decoded(data: Seq<u8>) -> ZstdOutcome;

/// `zstd::stream::decode_all` on a byte slice (a `zstd::Decoder` read to the
/// end).  Trusted: the outcome is the named one.  Like any growing buffer,
/// the output can run out of memory on data that expands without bound.
#[verifier::external_body]
fn zstd_decode_all(data: &[u8]) -> (res: Result<Vec<u8>, String>)
    ensures
        match res {
            Ok(v) => zstd_stream_decoded(data@) == ZstdOutcome::Ok(v@),
            Err(m) => zstd_stream_decoded(data@) == ZstdOutcome::Err(m@),
        },
{
    match zstd::stream::decode_all(data) {
        Ok(v) => Ok(v),
        Err(e) => Err(e.to_string()),
    }
}

/// The program inside a downloaded `.zst` file: the decoded bytes, or the
/// decoder's error text.
pub fn unpack_download(data: &[u8]) -> (res: Result<Vec<u8>, String>)
    ensures
        match res {
            Ok(v) => zstd_stream_decoded(data@) == ZstdOutcome::Ok(v@),
            Err(m) => zstd_stream_decoded(data@) == ZstdOutcome::Err(m@),
        },
{
    zstd_decode_all(data)
}

/// The name under which the checksum of `binary` for `os` and `arch` is
/// published: "name-os-arch".
pub open spec fn checksum_name_spec(binary: Binary, os: OS, arch: ARCH) -> Seq<char> {
    binary.name_spec() + "-"@ + os_text(os) + "-"@ + arch_text(arch)
}

/// The name of the published checksum of `binary` for `os` and `arch`.
pub fn checksum_name(binary: &Binary, os: OS, arch: ARCH) -> (res: String)
    ensures
        res@ == checksum_name_spec(*binary, os, arch),
{
    let mut s = String::new();
    push_str(&mut s, binary.name());
    push_str(&mut s, "-");
    push_str(&mut s, get_os_string(os).as_str());
    push_str(&mut s, "-");
    push_str(&mut s, get_arch_string(arch).as_str());
    assert(s@ =~= checksum_name_spec(*binary, os, arch));
    s
}

/// Whether `i` is the first space of `line`.
pub open spec fn first_space_at(line: Seq<char>, i: int) -> bool {
    &&& 0 <= i < line.len()
    &&& line[i] == ' '
    &&& forall|j: int| 0 <= j < i ==> line[j] != ' '
}

/// Whether the line of a checksum table names `wanted` before its first
/// space.
pub open spec fn entry_named(line: Seq<char>, wanted: Seq<char>) -> bool {
    exists|i: int| first_space_at(line, i) && line.take(i) == wanted
}

/// The checksum of a table line: what follows its first space, trimmed.
pub open spec fn entry_sum(line: Seq<char>) -> Seq<char> {
    let i = choose|i: int| first_space_at(line, i);
    trim_spec(line.skip(i + 1))
}

/// The checksum listed for `wanted` in the lines of a checksum table, each
/// "name checksum": the first line with that name.
pub open spec fn table_checksum(lines: Seq<Seq<char>>, wanted: Seq<char>) -> Option<Seq<char>>
    decreases lines.len(),
{
    if lines.len() == 0 {
        None
    } else if entry_named(lines[0], wanted) {
        Some(entry_sum(lines[0]))
    } else {
        table_checksum(lines.drop_first(), wanted)
    }
}

/// The first space of `line`, if any.
fn find_space(line: &[char]) -> (res: Option<usize>)
    ensures
        match res {
            Some(i) => first_space_at(line@, i as int),
            None => forall|j: int| 0 <= j < line@.len() ==> line@[j] != ' ',
        },
{
    let mut k: usize = 0;
    while k < line.len()
        invariant
            k <= line@.len(),
            forall|j: int| 0 <= j < k ==> line@[j] != ' ',
        decreases line@.len() - k,
    {
        if line[k] == ' ' {
            return Some(k);
        }
        k = k + 1;
    }
    None
}

/// The checksum of one table line when it names `wanted`.
fn line_checksum(line: &str, wanted: &str) -> (res: Option<String>)
    ensures
        entry_named(line@, wanted@) ==> (res matches Some(t) && t@ == entry_sum(line@)),
        !entry_named(line@, wanted@) ==> res is None,
{
    let v = chars_of(line);
    match find_space(v.as_slice()) {
        None => {
            assert forall|i: int| !first_space_at(line@, i) by {}
            None
        },
        Some(k) => {
            proof {
                assert forall|i: int| first_space_at(line@, i) implies i == k by {
                    if i < k {
                        assert(line@[i] == ' ');
                    }
                    if i > k {
                        assert(line@[k as int] != ' ');
                    }
                }
            }
            let name = string_from(v.as_slice(), 0, k);
            assert(name@ =~= line@.take(k as int));
            if same_text(name.as_str(), wanted) {
                assert(k < v.len());
                let rest = string_from(v.as_slice(), k + 1, v.len());
                assert(rest@ =~= line@.skip(k + 1));
                Some(trim(rest.as_str()))
            } else {
                None
            }
        },
    }
}

/// The checksum listed for `wanted` in a checksum table, one "name
/// checksum" entry per line.
pub fn checksum_in_table(table: &str, wanted: &str) -> (res: Option<String>)
    ensures
        match res {
            Some(t) => table_checksum(lines_spec(table@), wanted@) == Some(t@),
            None => table_checksum(lines_spec(table@), wanted@) is None,
        },
{
    let all = lines(table);
    let ghost ls = texts(all@);
    let mut i: usize = 0;
    assert(ls.skip(0) =~= ls);
    while i < all.len()
        invariant
            i <= all@.len(),
            ls == texts(all@),
            ls == lines_spec(table@),
            table_checksum(ls, wanted@) == table_checksum(ls.skip(i as int), wanted@),
        decreases all@.len() - i,
    {
        assert(ls.skip(i as int)[0] == all@[i as int]@);
        assert(ls.skip(i as int).drop_first() =~= ls.skip(i + 1));
        match line_checksum(all[i].as_str(), wanted) {
            Some(t) => return Some(t),
            None => {},
        }
        i = i + 1;
    }
    assert(ls.skip(i as int) =~= Seq::<Seq<char>>::empty());
    None
}

/// What the user chose after a download problem.
#[derive(Clone, Copy, PartialEq, Eq, Structural, Debug)]
pub enum WorkerAction {
    Continue,
    Retry,
}

/// What the download worker is told after the user answers an update
/// error dialog: its first button continues, its second retries; other
/// dialogs tell it nothing.
pub fn worker_action_for(action: DialogAction, reply: DialogReply) -> (res: Option<WorkerAction>)
    ensures
        res == (if action == DialogAction::RetryUpdate && reply == DialogReply::Primary {
            Some(WorkerAction::Continue)
        } else if action == DialogAction::RetryUpdate && reply == DialogReply::Secondary {
            Some(WorkerAction::Retry)
        } else {
            None
        }),
{
    if action == DialogAction::RetryUpdate && reply == DialogReply::Primary {
        Some(WorkerAction::Continue)
    } else if action == DialogAction::RetryUpdate && reply == DialogReply::Secondary {
        Some(WorkerAction::Retry)
    } else {
        None
    }
}

/// Whether the program `b` is used on `os` (the WireGuard library only on
/// Windows).
pub open spec fn used_on(b: Binary, os: OS) -> bool {
    b != Binary::WireguardDll || os == OS::Windows
}

/// The programs of `binaries` used on `os`, each with its position in the
/// list.
pub open spec fn binaries_to_check_spec(binaries: Seq<Binary>, os: OS) -> Seq<(usize, Binary)>
    decreases binaries.len(),
{
    if binaries.len() == 0 {
        Seq::empty()
    } else {
        let rest = binaries_to_check_spec(binaries.drop_last(), os);
        let i = (binaries.len() - 1) as usize;
        if used_on(binaries.last(), os) {
            rest.push((i, binaries.last()))
        } else {
            rest
        }
    }
}

/// The programs to check for updates on `os`, with their positions.
pub fn binaries_to_check(binaries: &[Binary], os: OS) -> (res: Vec<(usize, Binary)>)
    ensures
        res@ == binaries_to_check_spec(binaries@, os),
{
    let mut res: Vec<(usize, Binary)> = Vec::new();
    let mut i: usize = 0;
    assert(binaries@.take(0) =~= Seq::<Binary>::empty());
    while i < binaries.len()
        invariant
            i <= binaries@.len(),
            res@ == binaries_to_check_spec(binaries@.take(i as int), os),
        decreases binaries@.len() - i,
    {
        let b = binaries[i];
        assert(binaries@.take(i + 1).drop_last() =~= binaries@.take(i as int));
        if b != Binary::WireguardDll || os == OS::Windows {
            res.push((i, b));
        }
        i = i + 1;
    }
    assert(binaries@.take(i as int) =~= binaries@);
    res
}

/// The SHA-256 digest of `data`.
pub uninterp spec fn sha256_of(data: Seq<u8>) -> Seq<u8>;

/// `sha2::Sha256::digest`.  Trusted: the result is the named digest, 32
/// bytes long.
#[verifier::external_body]
fn sha256_digest(data: &[u8]) -> (res: Vec<u8>)
    ensures
        res@ == sha256_of(data@),
        res@.len() == 32,
{
    sha2::Sha256::digest(data).to_vec()
}

/// The lower-case hexadecimal digit for `d` (below 16).
pub open spec fn hex_digit(d: nat) -> char {
    if d < 10 {
        ((48 + d) as u8) as char
    } else {
        ((87 + d) as u8) as char
    }
}

/// `bytes` in lower-case hexadecimal, two digits per byte (as
/// `hex::encode` writes them).
pub open spec fn hex_lower(bytes: Seq<u8>) -> Seq<char>
    decreases bytes.len(),
{
    if bytes.len() == 0 {
        Seq::empty()
    } else {
        hex_lower(bytes.drop_last()) + seq![hex_digit((bytes.last() / 16) as nat), hex_digit((bytes.last() % 16) as nat)]
    }
}

/// The hexadecimal digit for `d`.
pub(crate) fn hex_char(d: u8) -> (c: char)
    requires
        d < 16,
    ensures
        c == hex_digit(d as nat),
{
    if d < 10 {
        (48 + d) as char
    } else {
        (87 + d) as char
    }
}

/// `bytes` in lower-case hexadecimal.
pub fn hex_encode(bytes: &[u8]) -> (res: String)
    ensures
        res@ == hex_lower(bytes@),
{
    let mut s = String::new();
    let mut i: usize = 0;
    assert(bytes@.take(0) =~= Seq::<u8>::empty());
    while i < bytes.len()
        invariant
            i <= bytes@.len(),
            s@ == hex_lower(bytes@.take(i as int)),
        decreases bytes@.len() - i,
    {
        let b = bytes[i];
        push_char(&mut s, hex_char(b / 16));
        push_char(&mut s, hex_char(b % 16));
        assert(bytes@.take(i + 1).drop_last() =~= bytes@.take(i as int));
        i = i + 1;
        assert(s@ =~= hex_lower(bytes@.take(i as int)));
    }
    assert(bytes@.take(i as int) =~= bytes@);
    s
}

/// Whether two texts are equal.
pub fn same_text(a: &str, b: &str) -> (res: bool)
    ensures
        res == (a@ == b@),
{
    let x = chars_of(a);
    let y = chars_of(b);
    if x.len() != y.len() {
        return false;
    }
    let mut i: usize = 0;
    while i < x.len()
        invariant
            x@ == a@,
            y@ == b@,
            x@.len() == y@.len(),
            i <= x@.len(),
            forall|k: int| 0 <= k < i ==> x@[k] == y@[k],
        decreases x@.len() - i,
    {
        if x[i] != y[i] {
            return false;
        }
        i = i + 1;
    }
    assert(x@ =~= y@);
    true
}

/// Whether the file contents `data` have the SHA-256 checksum written in
/// lower-case hexadecimal as `checksum`.
pub fn checksum_matches(data: &[u8], checksum: &str) -> (res: bool)
    ensures
        res == (hex_lower(sha256_of(data@)) == checksum@),
{
    let digest = sha256_digest(data);
    let text = hex_encode(digest.as_slice());
    same_text(text.as_str(), checksum)
}

/// What the update dialog shows while the worker checks and downloads.
#[derive(Clone, Debug)]
pub enum UpdateProgress {
    Checking { current_name: String, current_index: usize, total: usize },
    Downloading { current_name: String, downloaded: u64, total_bytes: u64, done_count: usize, total: usize },
    Done { had_updates: bool, updates_failed: bool },
}

/// The number of programs the progress knows about.
pub open spec fn progress_total(p: UpdateProgress) -> usize {
    match p {
        UpdateProgress::Checking { total, .. } => total,
        UpdateProgress::Downloading { total, .. } => total,
        UpdateProgress::Done { .. } => 0,
    }
}

/// The number of finished downloads the progress knows about.
pub open spec fn progress_done(p: UpdateProgress) -> usize {
    match p {
        UpdateProgress::Downloading { done_count, .. } => done_count,
        _ => 0,
    }
}

/// The progress once the worker checks the program `name` at position
/// `index`: the total is kept while checking, and lost otherwise.
pub open spec fn checking_after(p: UpdateProgress, index: usize, name: String) -> UpdateProgress {
    UpdateProgress::Checking {
        current_name: name,
        current_index: index,
        total: match p {
            UpdateProgress::Checking { total, .. } => total,
            _ => 0,
        },
    }
}

/// The progress once the worker reports `downloaded` of `total_bytes` bytes
/// of `name`; a `complete` download counts as done (the count saturates).
pub open spec fn progress_after(p: UpdateProgress, name: String, downloaded: u64, total_bytes: u64, complete: bool) -> UpdateProgress {
    UpdateProgress::Downloading {
        current_name: name,
        downloaded,
        total_bytes,
        done_count: if complete && progress_done(p) < usize::MAX {
            (progress_done(p) + 1) as usize
        } else {
            progress_done(p)
        },
        total: progress_total(p),
    }
}

impl UpdateProgress {
    /// Checking begins for `total` programs.
    pub fn start(total: usize) -> (res: UpdateProgress)
        ensures
            res matches UpdateProgress::Checking { current_name, current_index, total: t }
                && current_name@.len() == 0 && current_index == 0 && t == total,
    {
        UpdateProgress::Checking { current_name: String::new(), current_index: 0, total }
    }

    /// The worker checks the program `name` at position `index`; the total
    /// is kept while checking, and lost otherwise.
    pub fn on_checking(&mut self, index: usize, name: String)
        ensures
            *final(self) == checking_after(*old(self), index, name),
    {
        let total = match self {
            UpdateProgress::Checking { total, .. } => *total,
            _ => 0,
        };
        *self = UpdateProgress::Checking { current_name: name, current_index: index, total };
    }

    /// The worker reports download progress on `name`; `complete` says the
    /// download has reached its full size, which counts it as done.
    pub fn on_progress(&mut self, name: String, downloaded: u64, total_bytes: u64, complete: bool)
        ensures
            *final(self) == progress_after(*old(self), name, downloaded, total_bytes, complete),
    {
        let (done_count, total) = match self {
            UpdateProgress::Checking { total, .. } => (0, *total),
            UpdateProgress::Downloading { done_count, total, .. } => (*done_count, *total),
            UpdateProgress::Done { .. } => (0, 0),
        };
        let done_count = if complete && done_count < usize::MAX { done_count + 1 } else { done_count };
        *self = UpdateProgress::Downloading { current_name: name, downloaded, total_bytes, done_count, total };
    }

    /// The worker finished.
    pub fn on_finished(&mut self, had_updates: bool, updates_failed: bool)
        ensures
            *final(self) == (UpdateProgress::Done { had_updates, updates_failed }),
    {
        *self = UpdateProgress::Done { had_updates, updates_failed };
    }
}

/// What the update dialog keeps: the progress it shows, and whether the
/// worker has reported that it finished.  Once finished, it stays so.
#[derive(Clone, Debug)]
pub struct UpdateDialogState {
    pub progress: UpdateProgress,
    pub is_complete: bool,
}

impl UpdateDialogState {
    /// Checking begins for `total` programs; nothing has finished.
    pub fn start(total: usize) -> (res: UpdateDialogState)
        ensures
            res.progress matches UpdateProgress::Checking { current_name, current_index, total: t }
                && current_name@.len() == 0 && current_index == 0 && t == total,
            !res.is_complete,
    {
        UpdateDialogState { progress: UpdateProgress::start(total), is_complete: false }
    }

    /// The worker checks the program `name` at position `index`.
    pub fn on_checking(&mut self, index: usize, name: String)
        ensures
            final(self).progress == checking_after(old(self).progress, index, name),
            final(self).is_complete == old(self).is_complete,
    {
        self.progress.on_checking(index, name);
    }

    /// The worker reports download progress on `name`.
    pub fn on_progress(&mut self, name: String, downloaded: u64, total_bytes: u64, complete: bool)
        ensures
            final(self).progress == progress_after(old(self).progress, name, downloaded, total_bytes, complete),
            final(self).is_complete == old(self).is_complete,
    {
        self.progress.on_progress(name, downloaded, total_bytes, complete);
    }

    /// The worker finished: the dialog shows the outcome and counts as
    /// complete.
    pub fn on_finished(&mut self, had_updates: bool, updates_failed: bool)
        ensures
            final(self).progress == (UpdateProgress::Done { had_updates, updates_failed }),
            final(self).is_complete,
    {
        self.progress.on_finished(had_updates, updates_failed);
        self.is_complete = true;
    }
}

/// "name (k/total)", the line under the dialog's heading.
pub open spec fn counted_label(name: Seq<char>, k: nat, total: nat) -> Seq<char> {
    name + " ("@ + decimal(k) + "/"@ + decimal(total) + ")"@
}

/// Appends "name (k/total)".
fn push_counted(s: &mut String, name: &str, k: u128, total: u128)
    ensures
        final(s)@ == old(s)@ + counted_label(name@, k as nat, total as nat),
{
    push_str(s, name);
    push_str(s, " (");
    push_decimal(s, k);
    push_str(s, "/");
    push_decimal(s, total);
    push_str(s, ")");
    assert(s@ =~= old(s)@ + counted_label(name@, k as nat, total as nat));
}

/// The line under the heading while checking: "Starting…" before the
/// first program, then its name and position.
pub fn checking_label(current_name: &str, current_index: usize, total: usize) -> (res: String)
    ensures
        current_name@.len() == 0 ==> res@ == "Starting…"@,
        current_name@.len() != 0 ==> res@ == counted_label(current_name@, current_index as nat + 1, total as nat),
{
    if current_name.is_empty() {
        "Starting…".to_owned()
    } else {
        let mut s = String::new();
        push_counted(&mut s, current_name, current_index as u128 + 1, total as u128);
        assert(s@ =~= counted_label(current_name@, current_index as nat + 1, total as nat));
        s
    }
}

/// The line under the heading while downloading: the program and how many
/// downloads, this one included, have begun.
pub fn downloading_label(current_name: &str, done_count: usize, total: usize) -> (res: String)
    ensures
        res@ == counted_label(current_name@, done_count as nat + 1, total as nat),
{
    let mut s = String::new();
    push_counted(&mut s, current_name, done_count as u128 + 1, total as u128);
    assert(s@ =~= counted_label(current_name@, done_count as nat + 1, total as nat));
    s
}

/// The heading and line shown when the worker is done.
pub fn done_texts(had_updates: bool, updates_failed: bool) -> (res: (&'static str, &'static str))
    ensures
        updates_failed ==> res.0@ == "⚠ Updates completed with errors"@
            && res.1@ == "Some binaries may have failed to update."@,
        !updates_failed && had_updates ==> res.0@ == "✅ Updates complete"@
            && res.1@ == "All binaries have been updated successfully."@,
        !updates_failed && !had_updates ==> res.0@ == "✅ Up to date"@
            && res.1@ == "All binaries are already at the latest version."@,
{
    if updates_failed {
        ("⚠ Updates completed with errors", "Some binaries may have failed to update.")
    } else if had_updates {
        ("✅ Updates complete", "All binaries have been updated successfully.")
    } else {
        ("✅ Up to date", "All binaries are already at the latest version.")
    }
}

/// What the download worker does after asking the user about a failed
/// download.
#[derive(Clone, Copy, PartialEq, Eq, Structural, Debug)]
pub enum RetryStep {
    /// Try the same download again.
    Retry,
    /// Give up on this program, remember the failure, go on with the next.
    SkipFailed,
    /// The dialog is gone: stop the worker.
    Stop,
}

/// The worker's step for the user's answer (None when the dialog side
/// went away).
pub fn retry_step(answer: Option<WorkerAction>) -> (res: RetryStep)
    ensures
        res == (match answer {
            Some(WorkerAction::Retry) => RetryStep::Retry,
            Some(WorkerAction::Continue) => RetryStep::SkipFailed,
            None => RetryStep::Stop,
        }),
{
    match answer {
        Some(WorkerAction::Retry) => RetryStep::Retry,
        Some(WorkerAction::Continue) => RetryStep::SkipFailed,
        None => RetryStep::Stop,
    }
}

/// Which of the two download loops runs: the client's own update, or the
/// helper programs one after another.
#[derive(Clone, Copy, PartialEq, Eq, Structural, Debug)]
pub enum UpdateLoopKind {
    SelfUpdate,
    Helpers,
}

/// What a download loop waits for from the user.
#[derive(Clone, Copy, PartialEq, Eq, Structural, Debug)]
pub enum Awaiting {
    Nothing,
    /// The answer to an error offered with "Retry".
    RetryAnswer,
    /// The acknowledgement of an error that cannot be retried.
    Acknowledgement,
}

/// What happened in a download loop.
#[derive(Clone, Copy, PartialEq, Eq, Structural, Debug)]
pub enum UpdateEvent {
    /// The server's release is the running one.
    ReleaseUpToDate,
    /// The server has another release.
    ReleaseNew,
    /// The server could not be reached for its release.
    ReleaseUnreachable,
    DownloadFailed,
    Downloaded,
    UnpackFailed,
    Unpacked,
    /// Making the program executable, or starting it, failed.
    InstallFailed,
    Installed,
    /// The user answered the error dialog (None: the dialog went away).
    Answer(Option<WorkerAction>),
}

/// What a download loop does next.
#[derive(Clone, Copy, PartialEq, Eq, Structural, Debug)]
pub enum UpdateAction {
    /// Ask the server for its release.
    CheckRelease,
    /// Download the current program (again).
    Download,
    /// Decode the downloaded file.
    Unpack,
    /// Make the program executable (and, for the client, start it).
    Install,
    /// Show the error with "Retry" and wait for the answer.
    AskRetry,
    /// Show the error without "Retry" and wait for it to be dismissed.
    AskAcknowledge,
    /// Show the error without waiting, and go on with the next program.
    ReportAndNext,
    /// Go on with the next program.
    NextProgram,
    /// Leave the loop.
    Stop,
}

/// A download loop: which one, what it waits for, and whether an update
/// has failed so far.
#[derive(Clone, Copy, PartialEq, Eq, Structural, Debug)]
pub struct UpdateLoop {
    pub kind: UpdateLoopKind,
    pub awaiting: Awaiting,
    pub failed: bool,
}

/// The loop and its next action after `event`.  The client's own update
/// checks the release again after any answer but a vanished dialog; a
/// helper program is downloaded again on "Retry" and skipped on
/// "Continue".  "Continue" and every error that cannot be retried count as
/// a failed update.
pub open spec fn update_step_spec(s: UpdateLoop, e: UpdateEvent) -> (UpdateLoop, UpdateAction) {
    let own = s.kind == UpdateLoopKind::SelfUpdate;
    let idle = UpdateLoop { awaiting: Awaiting::Nothing, ..s };
    match e {
        UpdateEvent::Answer(a) => match s.awaiting {
            Awaiting::RetryAnswer => match a {
                Some(WorkerAction::Retry) => (idle, if own { UpdateAction::CheckRelease } else { UpdateAction::Download }),
                Some(WorkerAction::Continue) => (
                    UpdateLoop { failed: true, ..idle },
                    if own { UpdateAction::CheckRelease } else { UpdateAction::NextProgram },
                ),
                None => (idle, UpdateAction::Stop),
            },
            Awaiting::Acknowledgement => (
                UpdateLoop { failed: true, ..idle },
                if own { UpdateAction::Stop } else { UpdateAction::NextProgram },
            ),
            Awaiting::Nothing => (s, UpdateAction::Stop),
        },
        UpdateEvent::ReleaseUpToDate => (s, UpdateAction::Stop),
        UpdateEvent::ReleaseNew => (s, UpdateAction::Download),
        UpdateEvent::ReleaseUnreachable => (UpdateLoop { awaiting: Awaiting::RetryAnswer, ..s }, UpdateAction::AskRetry),
        UpdateEvent::DownloadFailed => (UpdateLoop { awaiting: Awaiting::RetryAnswer, ..s }, UpdateAction::AskRetry),
        UpdateEvent::Downloaded => (s, UpdateAction::Unpack),
        UpdateEvent::UnpackFailed => (
            UpdateLoop { awaiting: Awaiting::Acknowledgement, ..s },
            UpdateAction::AskAcknowledge,
        ),
        UpdateEvent::Unpacked => (s, UpdateAction::Install),
        UpdateEvent::InstallFailed => if own {
            (UpdateLoop { awaiting: Awaiting::Acknowledgement, ..s }, UpdateAction::AskAcknowledge)
        } else {
            (s, UpdateAction::ReportAndNext)
        },
        UpdateEvent::Installed => (s, if own { UpdateAction::Stop } else { UpdateAction::NextProgram }),
    }
}

impl UpdateLoop {
    /// A loop of `kind` that waits for nothing and has no failure yet.
    pub fn new(kind: UpdateLoopKind) -> (res: UpdateLoop)
        ensures
            res == (UpdateLoop { kind, awaiting: Awaiting::Nothing, failed: false }),
    {
        UpdateLoop { kind, awaiting: Awaiting::Nothing, failed: false }
    }

    /// Takes in `event` and gives the next action.
    pub fn step(&mut self, event: UpdateEvent) -> (action: UpdateAction)
        ensures
            (*final(self), action) == update_step_spec(*old(self), event),
    {
        let own = self.kind == UpdateLoopKind::SelfUpdate;
        match event {
            UpdateEvent::Answer(a) => match self.awaiting {
                Awaiting::RetryAnswer => {
                    self.awaiting = Awaiting::Nothing;
                    match a {
                        Some(WorkerAction::Retry) => if own {
                            UpdateAction::CheckRelease
                        } else {
                            UpdateAction::Download
                        },
                        Some(WorkerAction::Continue) => {
                            self.failed = true;
                            if own {
                                UpdateAction::CheckRelease
                            } else {
                                UpdateAction::NextProgram
                            }
                        },
                        None => UpdateAction::Stop,
                    }
                },
                Awaiting::Acknowledgement => {
                    self.awaiting = Awaiting::Nothing;
                    self.failed = true;
                    if own {
                        UpdateAction::Stop
                    } else {
                        UpdateAction::NextProgram
                    }
                },
                Awaiting::Nothing => UpdateAction::Stop,
            },
            UpdateEvent::ReleaseUpToDate => UpdateAction::Stop,
            UpdateEvent::ReleaseNew => UpdateAction::Download,
            UpdateEvent::ReleaseUnreachable => {
                self.awaiting = Awaiting::RetryAnswer;
                UpdateAction::AskRetry
            },
            UpdateEvent::DownloadFailed => {
                self.awaiting = Awaiting::RetryAnswer;
                UpdateAction::AskRetry
            },
            UpdateEvent::Downloaded => UpdateAction::Unpack,
            UpdateEvent::UnpackFailed => {
                self.awaiting = Awaiting::Acknowledgement;
                UpdateAction::AskAcknowledge
            },
            UpdateEvent::Unpacked => UpdateAction::Install,
            UpdateEvent::InstallFailed => if own {
                self.awaiting = Awaiting::Acknowledgement;
                UpdateAction::AskAcknowledge
            } else {
                UpdateAction::ReportAndNext
            },
            UpdateEvent::Installed => if own {
                UpdateAction::Stop
            } else {
                UpdateAction::NextProgram
            },
        }
    }
}

/// What the helpers' loop reports when it ends: whether there were updates
/// and whether one failed; with nothing to update, neither.
pub fn finished_report(any_needed: bool, failed: bool) -> (res: (bool, bool))
    ensures
        res == (if any_needed { (true, failed) } else { (false, false) }),
{
    if any_needed {
        (true, failed)
    } else {
        (false, false)
    }
}

/// A failed update stays failed, and a loop stays the loop it is, whatever
/// happens next.
pub proof fn lemma_update_failure_sticks(s: UpdateLoop, e: UpdateEvent)
    ensures
        s.failed ==> update_step_spec(s, e).0.failed,
        update_step_spec(s, e).0.kind == s.kind,
{
}

/// An error that cannot be retried always counts as a failed update,
/// whatever the user answers; "Continue" after an error that could be
/// retried counts as failed too; "Retry" keeps what was recorded.  Either
/// way the loop no longer waits.
pub proof fn lemma_update_failure_rules(s: UpdateLoop, a: Option<WorkerAction>)
    ensures
        s.awaiting == Awaiting::Acknowledgement ==> update_step_spec(s, UpdateEvent::Answer(a)).0.failed,
        s.awaiting == Awaiting::RetryAnswer && a == Some(WorkerAction::Continue) ==> update_step_spec(
            s,
            UpdateEvent::Answer(a),
        ).0.failed,
        s.awaiting == Awaiting::RetryAnswer && a == Some(WorkerAction::Retry) ==> update_step_spec(
            s,
            UpdateEvent::Answer(a),
        ).0.failed == s.failed,
        s.awaiting != Awaiting::Nothing ==> update_step_spec(s, UpdateEvent::Answer(a)).0.awaiting
            == Awaiting::Nothing,
{
}

/// The programs checked on `os` are exactly those of the list used there,
/// each with its position in the list: the WireGuard library only on
/// Windows, every other program on every system.
pub proof fn lemma_checked_programs(binaries: Seq<Binary>, os: OS)
    requires
        binaries.len() <= usize::MAX,
    ensures
        forall|k: int| 0 <= k < binaries_to_check_spec(binaries, os).len() ==> {
            let e = #[trigger] binaries_to_check_spec(binaries, os)[k];
            &&& (e.0 as int) < binaries.len()
            &&& binaries[e.0 as int] == e.1
            &&& (e.1 == Binary::WireguardDll ==> os == OS::Windows)
        },
        forall|i: int| 0 <= i < binaries.len() && (binaries[i] != Binary::WireguardDll || os == OS::Windows)
            ==> binaries_to_check_spec(binaries, os).contains((i as usize, #[trigger] binaries[i])),
    decreases binaries.len(),
{
    if binaries.len() > 0 {
        let init = binaries.drop_last();
        lemma_checked_programs(init, os);
        let rest = binaries_to_check_spec(init, os);
        let all = binaries_to_check_spec(binaries, os);
        let n = binaries.len() - 1;
        assert forall|k: int| 0 <= k < all.len() implies {
            let e = #[trigger] all[k];
            &&& (e.0 as int) < binaries.len()
            &&& binaries[e.0 as int] == e.1
            &&& (e.1 == Binary::WireguardDll ==> os == OS::Windows)
        } by {
            if k < rest.len() {
                let e = rest[k];
                assert(init[e.0 as int] == e.1);
            }
        }
        assert forall|i: int| 0 <= i < binaries.len() && (binaries[i] != Binary::WireguardDll || os == OS::Windows)
            implies all.contains((i as usize, #[trigger] binaries[i])) by {
            if i < n {
                assert(init[i] == binaries[i]);
                assert(rest.contains((i as usize, init[i])));
                let k = choose|k: int| 0 <= k < rest.len() && rest[k] == (i as usize, init[i]);
                assert(all[k] == rest[k]);
            } else {
                assert(all[all.len() - 1] == (i as usize, binaries[i]));
            }
        }
    }
}

/// The copy of the client downloaded next to the executable is named so
/// that taking the marker out of its name gives back the executable's
/// name: the name itself elsewhere, the stem with ".exe" on Windows.
pub proof fn lemma_update_copy_names_back(os: OS, exec_name: Seq<char>, exec_stem: Seq<char>)
    ensures
        ({
            let (next_to_exe, copy) = binary_location_spec(Binary::Mbtunnel, os, exec_name, exec_stem);
            next_to_exe && without_last_spec(copy, UPDATE_MARKER@) == Some(
                if os == OS::Windows { exec_stem + ".exe"@ } else { exec_name },
            )
        }),
{
    reveal_strlit(".updatefile");
    reveal_strlit(".updatefile.exe");
    reveal_strlit(".exe");
    let m = UPDATE_MARKER@;
    let (base, copy) = if os == OS::Windows {
        (exec_stem, exec_stem + ".updatefile.exe"@)
    } else {
        (exec_name, exec_name + ".updatefile"@)
    };
    let n = base.len() as int;
    assert(copy.subrange(n, n + m.len()) =~= m);
    assert(crate::parse::occurs_at(copy, m, n));
    assert forall|j: int| crate::parse::occurs_at(copy, m, j) implies j <= n by {
        if j > n {
            assert(copy.subrange(j, j + m.len())[0] == m[0]);
            assert(copy[j] == '.');
            assert(j + 11 <= copy.len());
            assert(1 <= j - n <= 4);
            assert(copy[j] == ".updatefile.exe"@[j - n]);
        }
    }
    let i = choose|i: int| crate::parse::occurs_at(copy, m, i)
        && forall|j: int| crate::parse::occurs_at(copy, m, j) ==> j <= i;
    assert(i == n);
    if os == OS::Windows {
        assert(copy.subrange(0, n) + copy.subrange(n + m.len(), copy.len() as int) =~= exec_stem + ".exe"@);
    } else {
        assert(copy.subrange(0, n) + copy.subrange(n + m.len(), copy.len() as int) =~= exec_name);
    }
}

/// The permission bits of a downloaded program once it may be executed by
/// its owner, its group and everyone else.
pub fn executable_mode(mode: u32) -> (res: u32)
    ensures
        res == mode | 0o111,
{
    mode | 0o111
}

} // verus!
