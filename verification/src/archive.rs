//! Taking the tools out of their downloaded archives: which entries hold which
//! binary, and what is missing.
use crate::deps::{archive_entry_target, missing_binaries_message, spec_entry_target};
use crate::archive::ReadFailure::{Contents, Entry, Listing};
use std::io::Read;
use vstd::prelude::*;
use vstd::string::*;

verus! {

// ─── tar.xz ─────────────────────────────────────────────────

/// Why reading an archive stopped, with the error's text.
#[derive(Debug)]
pub enum ReadFailure {
    /// The archive could not be opened, or its entries could not be listed.
    Listing(String),
    /// The next entry could not be read.
    Entry(String),
    /// The contents of the entry with this path (or name) could not be read.
    Contents(Vec<u8>, String),
}

/// The mathematical value of a [`ReadFailure`].
pub enum ReadFailureView {
    Listing(Seq<char>),
    Entry(Seq<char>),
    Contents(Seq<u8>, Seq<char>),
}

impl View for ReadFailure {
    type V = ReadFailureView;

    open spec fn view(&self) -> ReadFailureView {
        match *self {
            ReadFailure::Listing(t) => ReadFailureView::Listing(t@),
            ReadFailure::Entry(t) => ReadFailureView::Entry(t@),
            ReadFailure::Contents(p, t) => ReadFailureView::Contents(p@, t@),
        }
    }
}

pub open spec fn failure_view(f: Option<ReadFailure>) -> Option<ReadFailureView> {
    match f {
        Some(x) => Some(x@),
        None => None,
    }
}

/// The entries of a tar.xz archive, in order, as far as they could be read: the
/// raw bytes of each entry's path (`Entry::path_bytes`) and the entry's contents;
/// and why reading stopped early, if it did.
pub uninterp spec fn tar_xz_entries(bytes: Seq<u8>) -> (Seq<(Seq<u8>, Seq<u8>)>, Option<ReadFailureView>);

/// The entries of a decoded tar archive, by view.
pub open spec fn tar_entry_views(v: Seq<(Vec<u8>, Vec<u8>)>) -> Seq<(Seq<u8>, Seq<u8>)> {
    v.map_values(|e: (Vec<u8>, Vec<u8>)| (e.0@, e.1@))
}

/// Decodes a tar.xz archive with `xz2::read::XzDecoder` and `tar::Archive::entries`:
/// every entry's raw path bytes and contents, in order, up to the first error, and
/// that error. The result is what `tar_xz_entries` names.
#[verifier::external_body]
fn decode_tar_xz(bytes: &[u8]) -> (r: (Vec<(Vec<u8>, Vec<u8>)>, Option<ReadFailure>))
    ensures
        tar_xz_entries(bytes@) == (tar_entry_views(r.0@), failure_view(r.1)),
{
    let mut archive = tar::Archive::new(xz2::read::XzDecoder::new(bytes));
    let mut out = Vec::new();
    let entries = match archive.entries() {
        Ok(e) => e,
        Err(e) => return (out, Some(Listing(e.to_string()))),
    };
    for entry in entries {
        let mut entry = match entry { Ok(e) => e, Err(e) => return (out, Some(Entry(e.to_string()))) };
        let (path, mut data) = (entry.path_bytes().into_owned(), Vec::new());
        match entry.read_to_end(&mut data) {
            Ok(_) => out.push((path, data)),
            Err(e) => return (out, Some(Contents(path, e.to_string()))),
        }
    }
    (out, None)
}

/// The binaries taken from the Linux ffmpeg archive.
#[derive(Debug, Clone, Copy, PartialEq, Eq, Structural)]
pub enum TarBinary {
    Ffmpeg,
    Ffprobe,
}

/// A part of a path that `Path::components` keeps as a name: neither empty nor `.`.
pub open spec fn kept_segment(seg: Seq<u8>) -> bool {
    seg.len() > 0 && seg != seq![46u8]
}

pub open spec fn push_segment(acc: Seq<Seq<u8>>, seg: Seq<u8>) -> Seq<Seq<u8>> {
    if kept_segment(seg) {
        acc.push(seg)
    } else {
        acc
    }
}

/// The kept `/`-separated parts of `p` from `i` on, after `acc`, where `cur` is the
/// part begun before `i`.
pub open spec fn segments_from(p: Seq<u8>, i: int, cur: Seq<u8>, acc: Seq<Seq<u8>>) -> Seq<
    Seq<u8>,
>
    decreases p.len() - i,
{
    if i < 0 || i >= p.len() {
        push_segment(acc, cur)
    } else if p[i] == 47u8 {
        segments_from(p, i + 1, Seq::empty(), push_segment(acc, cur))
    } else {
        segments_from(p, i + 1, cur.push(p[i]), acc)
    }
}

/// The names of a path's parts, in order: what `Path::components` gives on Unix
/// (the separator of tar paths), but for a leading root or `.`, which no name equals.
pub open spec fn path_segments(p: Seq<u8>) -> Seq<Seq<u8>> {
    segments_from(p, 0, Seq::empty(), Seq::empty())
}

pub open spec fn bin_word() -> Seq<u8> {
    seq![98u8, 105u8, 110u8]
}

pub open spec fn ffmpeg_word() -> Seq<u8> {
    seq![102u8, 102u8, 109u8, 112u8, 101u8, 103u8]
}

pub open spec fn ffprobe_word() -> Seq<u8> {
    seq![102u8, 102u8, 112u8, 114u8, 111u8, 98u8, 101u8]
}

/// Which binary a tar entry is, by its path: one that ends with `bin/ffmpeg` or
/// `bin/ffprobe`, part by part.
pub open spec fn spec_tar_binary(p: Seq<u8>) -> Option<TarBinary> {
    let s = path_segments(p);
    if s.len() >= 2 && s[s.len() - 2] == bin_word() {
        if s[s.len() - 1] == ffmpeg_word() {
            Some(TarBinary::Ffmpeg)
        } else if s[s.len() - 1] == ffprobe_word() {
            Some(TarBinary::Ffprobe)
        } else {
            None
        }
    } else {
        None
    }
}

pub open spec fn byte_views(v: Seq<Vec<u8>>) -> Seq<Seq<u8>> {
    v.map_values(|b: Vec<u8>| b@)
}

fn bytes_equal(a: &Vec<u8>, b: &Vec<u8>) -> (r: bool)
    ensures
        r == (a@ == b@),
{
    if a.len() != b.len() {
        return false;
    }
    let mut i: usize = 0;
    while i < a.len()
        invariant
            i <= a@.len(),
            a@.len() == b@.len(),
            forall|k: int| 0 <= k < i ==> a@[k] == b@[k],
        decreases a@.len() - i,
    {
        if a[i] != b[i] {
            return false;
        }
        i = i + 1;
    }
    assert(a@ =~= b@);
    true
}

/// The names of a path's parts.
pub fn path_segments_exec(p: &Vec<u8>) -> (r: Vec<Vec<u8>>)
    ensures
        byte_views(r@) == path_segments(p@),
{
    let mut acc: Vec<Vec<u8>> = Vec::new();
    let mut cur: Vec<u8> = Vec::new();
    let mut i: usize = 0;
    assert(byte_views(acc@) =~= Seq::<Seq<u8>>::empty());
    assert(cur@ =~= Seq::<u8>::empty());
    while i < p.len()
        invariant
            i <= p@.len(),
            segments_from(p@, i as int, cur@, byte_views(acc@)) == path_segments(p@),
        decreases p@.len() - i,
    {
        if p[i] == 47u8 {
            let ghost before = byte_views(acc@);
            let ghost seg = cur@;
            if cur.len() > 0 && !(cur.len() == 1 && cur[0] == 46u8) {
                let done = cur;
                acc.push(done);
                assert(byte_views(acc@) =~= before.push(seg));
            } else {
                assert(!kept_segment(seg)) by {
                    if seg.len() == 1 && seg[0] == 46u8 {
                        assert(seg =~= seq![46u8]);
                    }
                }
            }
            cur = Vec::new();
            assert(cur@ =~= Seq::<u8>::empty());
        } else {
            cur.push(p[i]);
        }
        i = i + 1;
    }
    let ghost before = byte_views(acc@);
    let ghost seg = cur@;
    if cur.len() > 0 && !(cur.len() == 1 && cur[0] == 46u8) {
        acc.push(cur);
        assert(byte_views(acc@) =~= before.push(seg));
    } else {
        assert(!kept_segment(seg)) by {
            if seg.len() == 1 && seg[0] == 46u8 {
                assert(seg =~= seq![46u8]);
            }
        }
    }
    acc
}

/// Which binary a tar entry is, by its raw path.
pub fn tar_entry_binary(path: &Vec<u8>) -> (r: Option<TarBinary>)
    ensures
        r == spec_tar_binary(path@),
{
    let segs = path_segments_exec(path);
    let n = segs.len();
    if n < 2 {
        return None;
    }
    assert(byte_views(segs@)[n - 2] == segs@[n - 2]@);
    assert(byte_views(segs@)[n - 1] == segs@[n - 1]@);
    let bin: Vec<u8> = vec![98u8, 105u8, 110u8];
    let ffmpeg: Vec<u8> = vec![102u8, 102u8, 109u8, 112u8, 101u8, 103u8];
    let ffprobe: Vec<u8> = vec![102u8, 102u8, 112u8, 114u8, 111u8, 98u8, 101u8];
    assert(bin@ =~= bin_word());
    assert(ffmpeg@ =~= ffmpeg_word());
    assert(ffprobe@ =~= ffprobe_word());
    if !bytes_equal(&segs[n - 2], &bin) {
        return None;
    }
    if bytes_equal(&segs[n - 1], &ffmpeg) {
        Some(TarBinary::Ffmpeg)
    } else if bytes_equal(&segs[n - 1], &ffprobe) {
        Some(TarBinary::Ffprobe)
    } else {
        None
    }
}

/// Reads the entries from `i` on, keeping the contents of the latest `ffmpeg` and
/// `ffprobe` entry, and stops as soon as both have been seen.
pub open spec fn scan_ffmpeg(
    es: Seq<(Seq<u8>, Seq<u8>)>,
    i: int,
    ff: Option<Seq<u8>>,
    fp: Option<Seq<u8>>,
) -> Option<(Seq<u8>, Seq<u8>)>
    decreases es.len() - i,
{
    if ff is Some && fp is Some {
        Some((ff->0, fp->0))
    } else if i < 0 || i >= es.len() {
        None
    } else {
        let k = spec_tar_binary(es[i].0);
        scan_ffmpeg(
            es,
            i + 1,
            if k == Some(TarBinary::Ffmpeg) {
                Some(es[i].1)
            } else {
                ff
            },
            if k == Some(TarBinary::Ffprobe) {
                Some(es[i].1)
            } else {
                fp
            },
        )
    }
}

/// Some entry at or after `i` is the binary `b`.
pub open spec fn has_tar_binary(es: Seq<(Seq<u8>, Seq<u8>)>, i: int, b: TarBinary) -> bool {
    exists|j: int| i <= j < es.len() && spec_tar_binary(#[trigger] es[j].0) == Some(b)
}

/// The scan finds both binaries exactly when both occur.
pub proof fn lemma_scan_ffmpeg_finds(
    es: Seq<(Seq<u8>, Seq<u8>)>,
    i: int,
    ff: Option<Seq<u8>>,
    fp: Option<Seq<u8>>,
)
    requires
        0 <= i <= es.len(),
    ensures
        scan_ffmpeg(es, i, ff, fp) is Some <==> ((ff is Some || has_tar_binary(
            es,
            i,
            TarBinary::Ffmpeg,
        )) && (fp is Some || has_tar_binary(es, i, TarBinary::Ffprobe))),
    decreases es.len() - i,
{
    if ff is Some && fp is Some {
    } else if i == es.len() {
    } else {
        let k = spec_tar_binary(es[i].0);
        let ff2 = if k == Some(TarBinary::Ffmpeg) {
            Some(es[i].1)
        } else {
            ff
        };
        let fp2 = if k == Some(TarBinary::Ffprobe) {
            Some(es[i].1)
        } else {
            fp
        };
        lemma_scan_ffmpeg_finds(es, i + 1, ff2, fp2);
        assert forall|b: TarBinary|
            has_tar_binary(es, i, b) <==> (k == Some(b) || has_tar_binary(es, i + 1, b)) by {
            if has_tar_binary(es, i, b) {
                let j = choose|j: int| i <= j < es.len() && spec_tar_binary(#[trigger] es[j].0) == Some(b);
                if j > i {
                    assert(has_tar_binary(es, i + 1, b));
                }
            }
            if has_tar_binary(es, i + 1, b) {
                let j = choose|j: int|
                    i + 1 <= j < es.len() && spec_tar_binary(#[trigger] es[j].0) == Some(b);
                assert(i <= j);
            }
            if k == Some(b) {
                assert(spec_tar_binary(es[i].0) == Some(b));
            }
        }
    }
}

/// The error for an ffmpeg archive without both binaries.
pub open spec fn missing_ffmpeg_message() -> Seq<char> {
    "Could not find ffmpeg or ffprobe binaries inside the tar.xz archive"@
}

fn copy_bytes(v: &Vec<u8>) -> (r: Vec<u8>)
    ensures
        r@ == v@,
{
    let mut r: Vec<u8> = Vec::with_capacity(v.len());
    let mut i: usize = 0;
    while i < v.len()
        invariant
            i <= v@.len(),
            r@ == v@.subrange(0, i as int),
        decreases v@.len() - i,
    {
        r.push(v[i]);
        i = i + 1;
        assert(r@ =~= v@.subrange(0, i as int));
    }
    assert(v@.subrange(0, v@.len() as int) =~= v@);
    r
}

/// The contents of ffmpeg and ffprobe in the entries of the Linux ffmpeg archive:
/// the entries are read in order, each `bin/ffmpeg` or `bin/ffprobe` entry replaces
/// the one seen before, and reading stops once both have been seen.
pub fn select_ffmpeg_binaries(entries: &Vec<(Vec<u8>, Vec<u8>)>) -> (r: Result<
    (Vec<u8>, Vec<u8>),
    String,
>)
    ensures
        match r {
            Ok((a, b)) => scan_ffmpeg(tar_entry_views(entries@), 0, None, None) == Some(
                (a@, b@),
            ),
            Err(m) => scan_ffmpeg(tar_entry_views(entries@), 0, None, None) is None && m@
                == missing_ffmpeg_message(),
        },
        r is Ok <==> (has_tar_binary(tar_entry_views(entries@), 0, TarBinary::Ffmpeg)
            && has_tar_binary(tar_entry_views(entries@), 0, TarBinary::Ffprobe)),
{
    let ghost es = tar_entry_views(entries@);
    proof {
        lemma_scan_ffmpeg_finds(es, 0, None, None);
    }
    let mut ff: Option<Vec<u8>> = None;
    let mut fp: Option<Vec<u8>> = None;
    let mut i: usize = 0;
    while i < entries.len() && !(ff.is_some() && fp.is_some())
        invariant
            i <= entries@.len(),
            es == tar_entry_views(entries@),
            scan_ffmpeg(es, 0, None, None) == scan_ffmpeg(
                es,
                i as int,
                match ff {
                    Some(v) => Some(v@),
                    None => None,
                },
                match fp {
                    Some(v) => Some(v@),
                    None => None,
                },
            ),
        decreases entries@.len() - i,
    {
        let k = tar_entry_binary(&entries[i].0);
        assert(es[i as int].0 == entries@[i as int].0@);
        assert(es[i as int].1 == entries@[i as int].1@);
        match k {
            Some(TarBinary::Ffmpeg) => {
                ff = Some(copy_bytes(&entries[i].1));
            },
            Some(TarBinary::Ffprobe) => {
                fp = Some(copy_bytes(&entries[i].1));
            },
            None => {},
        }
        i = i + 1;
    }
    proof {
        reveal_strlit("Could not find ffmpeg or ffprobe binaries inside the tar.xz archive");
    }
    match (ff, fp) {
        (Some(a), Some(b)) => Ok((a, b)),
        _ => Err(String::from_str("Could not find ffmpeg or ffprobe binaries inside the tar.xz archive")),
    }
}

/// The error a stopped read of the ffmpeg archive is reported with.
pub open spec fn spec_tar_failure_message(f: ReadFailureView) -> Seq<char> {
    match f {
        ReadFailureView::Listing(t) => "Failed to read tar entries: "@ + t,
        ReadFailureView::Entry(t) => "Failed to read entry: "@ + t,
        ReadFailureView::Contents(p, t) => match spec_tar_binary(p) {
            Some(TarBinary::Ffmpeg) => "Extraction failed for ffmpeg: "@ + t,
            Some(TarBinary::Ffprobe) => "Extraction failed for ffprobe: "@ + t,
            None => "Failed to read entry: "@ + t,
        },
    }
}

fn tar_failure_message(f: &ReadFailure) -> (r: String)
    ensures
        r@ == spec_tar_failure_message(f@),
{
    match f {
        ReadFailure::Listing(t) => crate::text::concat2("Failed to read tar entries: ", t.as_str()),
        ReadFailure::Entry(t) => crate::text::concat2("Failed to read entry: ", t.as_str()),
        ReadFailure::Contents(p, t) => match tar_entry_binary(p) {
            Some(TarBinary::Ffmpeg) => crate::text::concat2(
                "Extraction failed for ffmpeg: ",
                t.as_str(),
            ),
            Some(TarBinary::Ffprobe) => crate::text::concat2(
                "Extraction failed for ffprobe: ",
                t.as_str(),
            ),
            None => crate::text::concat2("Failed to read entry: ", t.as_str()),
        },
    }
}

/// Takes ffmpeg and ffprobe out of the Linux ffmpeg archive (tar.xz bytes): their
/// contents, once both were found among the entries that could be read; else the
/// error that stopped the read, or the error for missing binaries.
pub fn extract_ffmpeg_from_tar_xz(bytes: &[u8]) -> (r: Result<(Vec<u8>, Vec<u8>), String>)
    ensures
        ({
            let (es, failure) = tar_xz_entries(bytes@);
            match r {
                Ok((a, b)) => scan_ffmpeg(es, 0, None, None) == Some((a@, b@)),
                Err(m) => scan_ffmpeg(es, 0, None, None) is None && m@ == match failure {
                    Some(f) => spec_tar_failure_message(f),
                    None => missing_ffmpeg_message(),
                },
            }
        }),
{
    let (entries, failure) = decode_tar_xz(bytes);
    match select_ffmpeg_binaries(&entries) {
        Ok(found) => Ok(found),
        Err(missing) => match failure {
            Some(f) => Err(tar_failure_message(&f)),
            None => Err(missing),
        },
    }
}

// ─── zip ────────────────────────────────────────────────────

/// The archive suffixes of `(suffix, file name)` mappings.
pub open spec fn mapping_suffixes(ms: Seq<(String, String)>) -> Seq<Seq<char>> {
    ms.map_values(|m: (String, String)| m.0@)
}

/// The file names of `(suffix, file name)` mappings.
pub open spec fn mapping_targets(ms: Seq<(String, String)>) -> Seq<Seq<char>> {
    ms.map_values(|m: (String, String)| m.1@)
}

/// The names of a zip archive's entries, in order, as far as they could be read,
/// and why reading stopped early, if it did.
pub uninterp spec fn zip_entry_names(bytes: Seq<u8>) -> (Seq<Seq<char>>, Option<ReadFailureView>);

/// Lists the entries of a zip archive with `zip::ZipArchive::new` and
/// `ZipArchive::by_index`: their names (`ZipFile::name`), in order, up to the
/// first error, and that error. The result is what `zip_entry_names` names.
#[verifier::external_body]
fn list_zip(bytes: &[u8]) -> (r: (Vec<String>, Option<ReadFailure>))
    ensures
        zip_entry_names(bytes@) == (crate::state::string_views(r.0@), failure_view(r.1)),
{
    let mut names = Vec::new();
    let mut archive = match zip::ZipArchive::new(std::io::Cursor::new(bytes)) {
        Ok(a) => a,
        Err(e) => return (names, Some(Listing(e.to_string()))),
    };
    for i in 0..archive.len() {
        match archive.by_index(i) {
            Ok(f) => names.push(f.name().to_string()),
            Err(e) => return (names, Some(Entry(e.to_string()))),
        }
    }
    (names, None)
}

/// The contents of the `i`-th entry of a zip archive, or the error's text.
pub uninterp spec fn zip_entry_contents(bytes: Seq<u8>, i: nat) -> Result<Seq<u8>, Seq<char>>;

/// Reads the contents of the `i`-th entry of a zip archive (`ZipArchive::by_index`
/// and `Read::read_to_end`). The result is what `zip_entry_contents` names.
#[verifier::external_body]
fn read_zip_entry(bytes: &[u8], i: usize) -> (r: Result<Vec<u8>, String>)
    ensures
        match r {
            Ok(d) => zip_entry_contents(bytes@, i as nat) == Ok::<Seq<u8>, Seq<char>>(d@),
            Err(t) => zip_entry_contents(bytes@, i as nat) == Err::<Seq<u8>, Seq<char>>(t@),
        },
{
    let mut data = Vec::new();
    let mut archive = match zip::ZipArchive::new(std::io::Cursor::new(bytes)) {
        Ok(a) => a,
        Err(e) => return Err(e.to_string()),
    };
    let read = match archive.by_index(i) {
        Ok(mut f) => f.read_to_end(&mut data),
        Err(e) => return Err(e.to_string()),
    };
    match read {
        Ok(_) => Ok(data),
        Err(e) => Err(e.to_string()),
    }
}

/// The first entry at or after `j` whose name ends with the suffix of mapping `k`
/// and with no earlier mapping's suffix.
pub open spec fn first_entry_for(names: Seq<Seq<char>>, sfx: Seq<Seq<char>>, k: int, j: int) -> Option<
    int,
>
    decreases names.len() - j,
{
    if j < 0 || j >= names.len() {
        None
    } else if spec_entry_target(names[j], sfx) == Some(k) {
        Some(j)
    } else {
        first_entry_for(names, sfx, k, j + 1)
    }
}

/// How many of the first `n` mappings have an entry.
pub open spec fn found_count(names: Seq<Seq<char>>, sfx: Seq<Seq<char>>, n: int) -> nat
    decreases n,
{
    if n <= 0 {
        0
    } else {
        found_count(names, sfx, n - 1) + if first_entry_for(names, sfx, n - 1, 0) is Some {
            1nat
        } else {
            0nat
        }
    }
}

proof fn lemma_found_count_bound(names: Seq<Seq<char>>, sfx: Seq<Seq<char>>, n: int)
    requires
        n >= 0,
    ensures
        found_count(names, sfx, n) <= n,
        found_count(names, sfx, n) == n <==> forall|k: int|
            0 <= k < n ==> #[trigger] first_entry_for(names, sfx, k, 0) is Some,
    decreases n,
{
    if n > 0 {
        lemma_found_count_bound(names, sfx, n - 1);
    }
}

fn first_entry_exec(names: &Vec<String>, mappings: &Vec<(String, String)>, k: usize) -> (r: Option<
    usize,
>)
    ensures
        match r {
            Some(j) => first_entry_for(
                crate::state::string_views(names@),
                mapping_suffixes(mappings@),
                k as int,
                0,
            ) == Some(j as int),
            None => first_entry_for(
                crate::state::string_views(names@),
                mapping_suffixes(mappings@),
                k as int,
                0,
            ) is None,
        },
{
    let ghost es = crate::state::string_views(names@);
    let ghost sfx = mapping_suffixes(mappings@);
    let mut j: usize = 0;
    while j < names.len()
        invariant
            j <= names@.len(),
            es == crate::state::string_views(names@),
            sfx == mapping_suffixes(mappings@),
            first_entry_for(es, sfx, k as int, j as int) == first_entry_for(es, sfx, k as int, 0),
        decreases names@.len() - j,
    {
        assert(es[j as int] == names@[j as int]@);
        let t = archive_entry_target(names[j].as_str(), mappings);
        if t == Some(k) {
            return Some(j);
        }
        j = j + 1;
    }
    None
}

/// The error for a zip archive in which some mappings have no entry.
pub open spec fn spec_missing_message(names: Seq<Seq<char>>, ms: Seq<(String, String)>, name: Seq<char>) -> Seq<
    char,
> {
    "Could only find "@ + crate::text::decimal(
        found_count(names, mapping_suffixes(ms), ms.len() as int),
    ) + "/"@ + crate::text::decimal(ms.len() as nat) + " binaries in the archive for "@ + name
}

/// Which entry each `(suffix, file name)` mapping takes: the first entry whose
/// name ends with its suffix (and with no earlier mapping's). Fails, naming how
/// many mappings were found, when some mapping has no entry.
pub fn select_zip_binaries(names: &Vec<String>, mappings: &Vec<(String, String)>, name: &str) -> (r:
    Result<Vec<usize>, String>)
    ensures
        ({
            let es = crate::state::string_views(names@);
            let sfx = mapping_suffixes(mappings@);
            &&& r is Ok <==> forall|k: int|
                0 <= k < mappings@.len() ==> #[trigger] first_entry_for(es, sfx, k, 0) is Some
            &&& r matches Ok(v) ==> v@.len() == mappings@.len() && forall|k: int|
                0 <= k < mappings@.len() ==> first_entry_for(es, sfx, k, 0) == Some(
                    #[trigger] v@[k] as int,
                )
            &&& r matches Err(m) ==> m@ == spec_missing_message(es, mappings@, name@)
        }),
{
    let ghost es = crate::state::string_views(names@);
    let ghost sfx = mapping_suffixes(mappings@);
    let mut picks: Vec<usize> = Vec::new();
    let mut all = true;
    let mut count: usize = 0;
    let mut k: usize = 0;
    while k < mappings.len()
        invariant
            k <= mappings@.len(),
            count <= k,
            count == found_count(es, sfx, k as int),
            all <==> forall|m: int| 0 <= m < k ==> #[trigger] first_entry_for(es, sfx, m, 0) is Some,
            all ==> picks@.len() == k && forall|m: int|
                0 <= m < k ==> first_entry_for(es, sfx, m, 0) == Some(#[trigger] picks@[m] as int),
            es == crate::state::string_views(names@),
            sfx == mapping_suffixes(mappings@),
        decreases mappings@.len() - k,
    {
        match first_entry_exec(names, mappings, k) {
            Some(j) => {
                count = count + 1;
                if all {
                    picks.push(j);
                }
            },
            None => {
                all = false;
            },
        }
        k = k + 1;
    }
    proof {
        lemma_found_count_bound(es, sfx, mappings@.len() as int);
    }
    if all {
        Ok(picks)
    } else {
        Err(missing_binaries_message(count, mappings.len(), name))
    }
}

/// The error a stopped listing of a zip archive is reported with.
pub open spec fn spec_zip_failure_message(f: ReadFailureView) -> Seq<char> {
    match f {
        ReadFailureView::Listing(t) => "Invalid zip archive: "@ + t,
        ReadFailureView::Entry(t) => t,
        ReadFailureView::Contents(_, t) => t,
    }
}

/// The contents of the picked entries read so far are those of the archive.
pub open spec fn contents_read(
    bytes: Seq<u8>,
    picks: Seq<usize>,
    datas: Seq<Vec<u8>>,
    n: int,
) -> bool {
    &&& datas.len() == n
    &&& forall|k: int|
        0 <= k < n ==> zip_entry_contents(bytes, picks[k] as nat) == Ok::<Seq<u8>, Seq<char>>(
            #[trigger] datas[k]@,
        )
}

/// Takes the mapped binaries out of a zip archive: the contents of each mapping's
/// entry, in mapping order. Fails with the archive's error when it could not be
/// listed as far as the binaries, with the missing-binaries error when some are
/// absent, and with the first mapping whose contents could not be read.
pub fn extract_zip_binaries(bytes: &[u8], mappings: &Vec<(String, String)>, name: &str) -> (r:
    Result<Vec<Vec<u8>>, String>)
    ensures
        ({
            let (names, failure) = zip_entry_names(bytes@);
            let sfx = mapping_suffixes(mappings@);
            let found = forall|k: int|
                0 <= k < mappings@.len() ==> #[trigger] first_entry_for(names, sfx, k, 0) is Some;
            &&& !found ==> (r matches Err(m) && m@ == match failure {
                Some(f) => spec_zip_failure_message(f),
                None => spec_missing_message(names, mappings@, name@),
            })
            &&& r matches Ok(datas) ==> found && datas@.len() == mappings@.len() && forall|k: int|
                0 <= k < mappings@.len() ==> #[trigger] zip_entry_contents(
                    bytes@,
                    first_entry_for(names, sfx, k, 0)->0 as nat,
                ) == Ok::<Seq<u8>, Seq<char>>(datas@[k]@)
            &&& (found && r is Err) ==> exists|k: int|
                0 <= k < mappings@.len() && #[trigger] zip_entry_contents(
                    bytes@,
                    first_entry_for(names, sfx, k, 0)->0 as nat,
                ) is Err && r->Err_0@ == "Extraction failed for "@ + mapping_targets(mappings@)[k]
                    + ": "@ + zip_entry_contents(
                    bytes@,
                    first_entry_for(names, sfx, k, 0)->0 as nat,
                )->Err_0
        }),
{
    let (names, failure) = list_zip(bytes);
    let picks = match select_zip_binaries(&names, mappings, name) {
        Ok(p) => p,
        Err(missing) => {
            return match failure {
                Some(ReadFailure::Listing(t)) => Err(crate::text::concat2("Invalid zip archive: ", t.as_str())),
                Some(ReadFailure::Entry(t)) => Err(t),
                Some(ReadFailure::Contents(_, t)) => Err(t),
                None => Err(missing),
            };
        },
    };
    let ghost es = crate::state::string_views(names@);
    let ghost sfx = mapping_suffixes(mappings@);
    let mut datas: Vec<Vec<u8>> = Vec::new();
    let mut k: usize = 0;
    while k < picks.len()
        invariant
            k <= picks@.len(),
            picks@.len() == mappings@.len(),
            forall|m: int|
                0 <= m < mappings@.len() ==> first_entry_for(es, sfx, m, 0) == Some(
                    #[trigger] picks@[m] as int,
                ),
            contents_read(bytes@, picks@, datas@, k as int),
            (es, failure_view(failure)) == zip_entry_names(bytes@),
            sfx == mapping_suffixes(mappings@),
        decreases picks@.len() - k,
    {
        match read_zip_entry(bytes, picks[k]) {
            Ok(d) => {
                datas.push(d);
                assert forall|m: int| 0 <= m < k + 1 implies zip_entry_contents(bytes@, picks@[m] as nat)
                    == Ok::<Seq<u8>, Seq<char>>(#[trigger] datas@[m]@) by {
                    if m < k {
                        assert(zip_entry_contents(bytes@, picks@[m] as nat) == Ok::<Seq<u8>, Seq<char>>(
                            datas@[m]@,
                        ));
                    }
                }
            },
            Err(t) => {
                let target = &mappings[k].1;
                assert(mapping_targets(mappings@)[k as int] == target@);
                let mut m = crate::text::concat2("Extraction failed for ", target.as_str());
                m.append(": ");
                m.append(t.as_str());
                proof {
                    let j = first_entry_for(es, sfx, k as int, 0)->0;
                    assert(first_entry_for(es, sfx, k as int, 0) == Some(picks@[k as int] as int));
                    assert(j as nat == picks@[k as int] as nat);
                    assert(zip_entry_contents(bytes@, j as nat) == Err::<Seq<u8>, Seq<char>>(t@));
                    assert(m@ == "Extraction failed for "@ + target@ + ": "@ + t@);
                    assert forall|q: int| 0 <= q < mappings@.len() implies #[trigger] first_entry_for(
                        es,
                        sfx,
                        q,
                        0,
                    ) is Some by {
                        assert(first_entry_for(es, sfx, q, 0) == Some(picks@[q] as int));
                    }
                }
                return Err(m);
            },
        }
        k = k + 1;
    }
    proof {
        assert forall|m: int| 0 <= m < mappings@.len() implies #[trigger] zip_entry_contents(
            bytes@,
            first_entry_for(es, sfx, m, 0)->0 as nat,
        ) == Ok::<Seq<u8>, Seq<char>>(datas@[m]@) by {
            assert(first_entry_for(es, sfx, m, 0) == Some(picks@[m] as int));
            assert(zip_entry_contents(bytes@, picks@[m] as nat) == Ok::<Seq<u8>, Seq<char>>(datas@[m]@));
        }
    }
    Ok(datas)
}

} // verus!
