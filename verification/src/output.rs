//! The grammar of yt-dlp's progress output, line by line.
//!
//! A line is classified by [`classify_line`] into an [`OutputLine`]; the
//! classification is specified by [`spec_classify`]. Digits are the decimal digits
//! of any script and whitespace is Unicode `White_Space`; a number only has a value
//! when it is written in ASCII digits (1 for a count, 0 for a percentage otherwise).
//! Percentages are kept in hundredths of a percent, rounded toward zero and limited
//! to `i64`.
use crate::text::{
    all_ascii_digits, ascii_digits, char_is_space, chars_of, digit_value, digits_value, is_digit,
    is_space, lemma_skip_digits_bounds,
    lemma_skip_space_bounds, lemma_trim_end_bounds, occurs_at, occurs_at_exec, skip_digits,
    skip_digits_exec, skip_space, skip_space_exec, starts_with, substring, trim, trim_end_exec,
    trim_end_index, trim_start,
};
use vstd::prelude::*;
use vstd::string::*;

verus! {

// ─── Grammar ────────────────────────────────────────────────

/// The value of a run of digits, or 1 when it is not made of ASCII digits or
/// does not fit in `usize`.
pub open spec fn usize_or_one(d: Seq<char>) -> usize {
    if ascii_digits(d) && digits_value(d) <= usize::MAX {
        digits_value(d) as usize
    } else {
        1
    }
}

/// `Downloading item <n> of <m>`, the whole rest of the line.
pub open spec fn item_count(r: Seq<char>) -> Option<(usize, usize)> {
    let a = "Downloading item "@.len() as int;
    if !starts_with(r, "Downloading item "@) {
        None
    } else {
        let b = skip_digits(r, a);
        if b == a || !occurs_at(r, " of "@, b) {
            None
        } else {
            let c = b + " of "@.len();
            let d = skip_digits(r, c);
            if d == c || d != r.len() {
                None
            } else {
                Some((usize_or_one(r.subrange(a, b)), usize_or_one(r.subrange(c, d))))
            }
        }
    }
}

/// End of a number `\d+\.?\d*` whose integer digits start at `p0`.
pub open spec fn number_end(r: Seq<char>, p0: int) -> int {
    let d1 = skip_digits(r, p0);
    if d1 < r.len() && r[d1] == '.' {
        skip_digits(r, d1 + 1)
    } else {
        d1
    }
}

/// The first two fraction digits, as hundredths; the dot is at `d1` when `e > d1`.
pub open spec fn frac_two(r: Seq<char>, d1: int, e: int) -> int {
    if e > d1 + 1 {
        digit_value(r[d1 + 1]) * 10 + if e > d1 + 2 {
            digit_value(r[d1 + 2]) as int
        } else {
            0
        }
    } else {
        0
    }
}

/// Hundredths of a percent for an integer part and two fraction digits, limited to `i64`.
pub open spec fn hundredths(int_digits: Seq<char>, frac: int) -> i64 {
    if digits_value(int_digits) * 100 + frac > i64::MAX {
        i64::MAX
    } else {
        (digits_value(int_digits) * 100 + frac) as i64
    }
}

/// The number `r[p0..e]`, whose integer digits end at `d1`, is written in ASCII
/// digits (a number in other digits does not parse, and counts as 0).
pub open spec fn number_is_ascii(r: Seq<char>, p0: int, d1: int, e: int) -> bool {
    &&& ascii_digits(r.subrange(p0, d1))
    &&& (e > d1 ==> ascii_digits(r.subrange(d1 + 1, e)))
}

/// Leading whitespace, a number and `%`: where the rest starts, and the percentage.
pub open spec fn percent(r: Seq<char>) -> Option<(int, i64)> {
    let p0 = skip_space(r, 0);
    let d1 = skip_digits(r, p0);
    let e = number_end(r, p0);
    if p0 == 0 || d1 == p0 || e >= r.len() || r[e] != '%' {
        None
    } else if number_is_ascii(r, p0, d1, e) {
        Some((e + 1, hundredths(r.subrange(p0, d1), frac_two(r, d1, e))))
    } else {
        Some((e + 1, 0))
    }
}

/// At `j` begins whitespace followed by `ETA`, more whitespace and at least one more character.
pub open spec fn eta_at(r: Seq<char>, j: int) -> bool {
    &&& 0 <= j < r.len()
    &&& is_space(r[j])
    &&& occurs_at(r, "ETA"@, skip_space(r, j))
    &&& skip_space(r, j) + "ETA"@.len() < r.len()
    &&& is_space(r[skip_space(r, j) + "ETA"@.len()])
    &&& r.len() - (skip_space(r, j) + "ETA"@.len()) >= 2
}

/// The time estimate that follows `ETA`.
pub open spec fn eta_text(r: Seq<char>, j: int) -> Seq<char> {
    trim(r.subrange(skip_space(r, j) + "ETA"@.len(), r.len() as int))
}

/// The first `j' >= j` with `eta_at(r, j')`.
pub open spec fn first_eta(r: Seq<char>, j: int) -> Option<int>
    decreases r.len() - j,
{
    if j < 0 || j >= r.len() {
        None
    } else if eta_at(r, j) {
        Some(j)
    } else {
        first_eta(r, j + 1)
    }
}

/// What follows an `at` whose end is `q`: whitespace, the speed, whitespace, `ETA`
/// and the estimate. The speed is the shortest text after all the whitespace;
/// where there is none, a speed made of one whitespace character is tried.
pub open spec fn after_at(r: Seq<char>, q: int) -> Option<(Seq<char>, Seq<char>)> {
    if q < 0 || q >= r.len() || !is_space(r[q]) {
        None
    } else {
        let w = skip_space(r, q);
        match first_eta(r, w + 1) {
            Some(j) => Some((trim(r.subrange(w, j)), eta_text(r, j))),
            None => if w - q >= 3 && eta_at(r, w - 1) {
                Some((Seq::empty(), eta_text(r, w - 1)))
            } else {
                None
            },
        }
    }
}

/// The last `at`, at or after `t` and at or before `a`, that `after_at` accepts.
pub open spec fn find_at(r: Seq<char>, t: int, a: int) -> Option<int>
    decreases a - t + 1,
{
    if a < t {
        None
    } else if occurs_at(r, "at"@, a) && after_at(r, a + 2) is Some {
        Some(a)
    } else {
        find_at(r, t, a - 1)
    }
}

/// A progress report: percentage, speed and estimate.
pub open spec fn progress_line(r: Seq<char>) -> Option<(i64, Seq<char>, Seq<char>)> {
    match percent(r) {
        None => None,
        Some((t, v)) => match find_at(r, t, r.len() - 2) {
            Some(a) => Some((v, after_at(r, a + 2).unwrap().0, after_at(r, a + 2).unwrap().1)),
            None => None,
        },
    }
}

/// `<p>` followed by whitespace and at least one more character: the trimmed rest.
pub open spec fn titled_rest(r: Seq<char>, p: Seq<char>) -> Option<Seq<char>> {
    if starts_with(r, p) && p.len() < r.len() && is_space(r[p.len() as int]) && r.len() - p.len()
        >= 2 {
        Some(trim(r.subrange(p.len() as int, r.len() as int)))
    } else {
        None
    }
}

/// Index of the last path separator (`\` or `/`) at or before `i`.
pub open spec fn last_sep_from(s: Seq<char>, i: int) -> Option<int>
    decreases i + 1,
{
    if i < 0 || i >= s.len() {
        None
    } else if s[i] == '\\' || s[i] == '/' {
        Some(i)
    } else {
        last_sep_from(s, i - 1)
    }
}

/// The text after the last path separator, or all of it.
pub open spec fn last_segment(s: Seq<char>) -> Seq<char> {
    match last_sep_from(s, s.len() - 1) {
        Some(i) => s.subrange(i + 1, s.len() as int),
        None => s,
    }
}

/// At `c` begins whitespace followed by `has already been downloaded`.
pub open spec fn tail_at(r: Seq<char>, c: int) -> bool {
    &&& 0 <= c < r.len()
    &&& is_space(r[c])
    &&& occurs_at(r, "has already been downloaded"@, skip_space(r, c))
}

/// The last `c`, at least 2 and at most `c0`, with `tail_at(r, c)`.
pub open spec fn last_tail(r: Seq<char>, c0: int) -> Option<int>
    decreases c0,
{
    if c0 < 2 {
        None
    } else if tail_at(r, c0) {
        Some(c0)
    } else {
        last_tail(r, c0 - 1)
    }
}

/// Whitespace, a path, whitespace and `has already been downloaded`: the path.
pub open spec fn already_downloaded(r: Seq<char>) -> Option<Seq<char>> {
    if r.len() >= 1 && is_space(r[0]) {
        match last_tail(r, r.len() - 1) {
            Some(cm) => {
                let w0 = skip_space(r, 0);
                let s0 = if w0 < cm - 1 {
                    w0
                } else {
                    cm - 1
                };
                Some(r.subrange(s0, cm))
            },
            None => None,
        }
    } else {
        None
    }
}

/// `Merging formats into "<path>"`: the path.
pub open spec fn merge_target(r: Seq<char>) -> Option<Seq<char>> {
    let p = "Merging formats into \""@;
    if starts_with(r, p) && r.len() >= p.len() + 2 && r.last() == '"' {
        Some(r.subrange(p.len() as int, r.len() - 1))
    } else {
        None
    }
}

/// A post-processing step of one of the known tools.
pub open spec fn is_postprocess(l: Seq<char>) -> bool {
    ||| starts_with(l, "[ExtractAudio]"@)
    ||| starts_with(l, "[FixupM4a]"@)
    ||| starts_with(l, "[Fixup]"@)
    ||| starts_with(l, "[ModifyChapters]"@)
    ||| starts_with(l, "[EmbedThumbnail]"@)
    ||| starts_with(l, "[MetadataParser]"@)
}

/// The kinds of output lines.
#[derive(Debug)]
pub enum OutputLine {
    /// `[download] Downloading item <current> of <total>`
    ItemCount { current: usize, total: usize },
    /// `[download]   <p>% ... at <speed> ETA <eta>`
    Progress { progress: i64, speed: String, eta: String },
    /// `[download] 100% of ...`
    FullyDownloaded,
    /// `[download]   <p>%`
    SimpleProgress { progress: i64 },
    /// `[download] Destination: <path>`: the file name.
    Destination { name: String },
    /// `[download] Downloading playlist: <title>`
    PlaylistTitle { title: String },
    /// `[download] <path> has already been downloaded`
    AlreadyDownloaded { path: String },
    /// `[Merger] Merging formats into "<path>"`
    Merging { path: String },
    /// A post-processing step.
    PostProcessing,
    /// Anything else.
    Other,
}

/// The mathematical value of an [`OutputLine`].
pub enum OutputLineView {
    ItemCount { current: usize, total: usize },
    Progress { progress: i64, speed: Seq<char>, eta: Seq<char> },
    FullyDownloaded,
    SimpleProgress { progress: i64 },
    Destination { name: Seq<char> },
    PlaylistTitle { title: Seq<char> },
    AlreadyDownloaded { path: Seq<char> },
    Merging { path: Seq<char> },
    PostProcessing,
    Other,
}

impl View for OutputLine {
    type V = OutputLineView;

    open spec fn view(&self) -> OutputLineView {
        match *self {
            OutputLine::ItemCount { current, total } => OutputLineView::ItemCount { current, total },
            OutputLine::Progress { progress, speed, eta } => OutputLineView::Progress {
                progress,
                speed: speed@,
                eta: eta@,
            },
            OutputLine::FullyDownloaded => OutputLineView::FullyDownloaded,
            OutputLine::SimpleProgress { progress } => OutputLineView::SimpleProgress { progress },
            OutputLine::Destination { name } => OutputLineView::Destination { name: name@ },
            OutputLine::PlaylistTitle { title } => OutputLineView::PlaylistTitle { title: title@ },
            OutputLine::AlreadyDownloaded { path } => OutputLineView::AlreadyDownloaded {
                path: path@,
            },
            OutputLine::Merging { path } => OutputLineView::Merging { path: path@ },
            OutputLine::PostProcessing => OutputLineView::PostProcessing,
            OutputLine::Other => OutputLineView::Other,
        }
    }
}

/// Lines that are neither `[download]` reports nor merges.
pub open spec fn classify_other(l: Seq<char>) -> OutputLineView {
    if is_postprocess(l) {
        OutputLineView::PostProcessing
    } else {
        OutputLineView::Other
    }
}

/// The kind of a `[download]` report with the given rest of the line.
pub open spec fn classify_download(l: Seq<char>, r: Seq<char>) -> OutputLineView {
    if item_count(r) is Some {
        OutputLineView::ItemCount { current: item_count(r).unwrap().0, total: item_count(r).unwrap().1 }
    } else if progress_line(r) is Some {
        OutputLineView::Progress {
            progress: progress_line(r).unwrap().0,
            speed: progress_line(r).unwrap().1,
            eta: progress_line(r).unwrap().2,
        }
    } else if starts_with(trim_start(r), "100% of"@) {
        OutputLineView::FullyDownloaded
    } else if percent(r) is Some {
        OutputLineView::SimpleProgress { progress: percent(r).unwrap().1 }
    } else if titled_rest(r, "Destination:"@) is Some {
        OutputLineView::Destination { name: last_segment(titled_rest(r, "Destination:"@).unwrap()) }
    } else if titled_rest(r, "Downloading playlist:"@) is Some {
        OutputLineView::PlaylistTitle { title: titled_rest(r, "Downloading playlist:"@).unwrap() }
    } else if already_downloaded(r) is Some {
        OutputLineView::AlreadyDownloaded { path: already_downloaded(r).unwrap() }
    } else {
        classify_other(l)
    }
}

/// The kind of an output line.
pub open spec fn spec_classify(l: Seq<char>) -> OutputLineView {
    if starts_with(l, "[download] "@) {
        classify_download(l, l.subrange("[download] "@.len() as int, l.len() as int))
    } else if starts_with(l, "[Merger] "@) && merge_target(
        l.subrange("[Merger] "@.len() as int, l.len() as int),
    ) is Some {
        OutputLineView::Merging {
            path: merge_target(l.subrange("[Merger] "@.len() as int, l.len() as int)).unwrap(),
        }
    } else {
        classify_other(l)
    }
}

// ─── Exec ───────────────────────────────────────────────────

/// `min(cap, v)` composes with one more digit.
proof fn lemma_saturating_step(cap: int, v: int, d: int)
    requires
        cap >= 0,
        v >= 0,
        0 <= d,
    ensures
        (if (if v < cap { v } else { cap }) * 10 + d < cap {
            (if v < cap { v } else { cap }) * 10 + d
        } else {
            cap
        }) == (if v * 10 + d < cap {
            v * 10 + d
        } else {
            cap
        }),
{
    if v >= cap {
        assert(v * 10 + d >= cap) by (nonlinear_arith)
            requires
                v >= cap,
                cap >= 0,
                d >= 0,
        ;
        assert(cap * 10 + d >= cap) by (nonlinear_arith)
            requires
                cap >= 0,
                d >= 0,
        ;
    }
}

/// The value of the digits `r[a..b]`, limited to `cap`.
fn digits_saturating(r: &Vec<char>, a: usize, b: usize, cap: u128) -> (v: u128)
    requires
        a <= b <= r@.len(),
        cap <= 0x1_0000_0000_0000_0000_0000_0000,
        forall|k: int| a <= k < b ==> is_digit(#[trigger] r@[k]),
    ensures
        v == (if digits_value(r@.subrange(a as int, b as int)) < cap {
            digits_value(r@.subrange(a as int, b as int))
        } else {
            cap as nat
        }),
{
    let mut acc: u128 = 0;
    let mut k = a;
    assert(r@.subrange(a as int, a as int).len() == 0);
    while k < b
        invariant
            a <= k <= b,
            b <= r@.len(),
            cap <= 0x1_0000_0000_0000_0000_0000_0000,
            forall|m: int| a <= m < b ==> is_digit(#[trigger] r@[m]),
            acc <= cap,
            acc == (if digits_value(r@.subrange(a as int, k as int)) < cap {
                digits_value(r@.subrange(a as int, k as int))
            } else {
                cap as nat
            }),
        decreases b - k,
    {
        let c = r[k];
        assert(is_digit(r@[k as int]));
        let d: u128 = ((c as u32) - ('0' as u32)) as u128;
        let ghost prev = digits_value(r@.subrange(a as int, k as int));
        let next: u128 = acc * 10 + d;
        acc = if next < cap {
            next
        } else {
            cap
        };
        proof {
            let sub = r@.subrange(a as int, k + 1);
            assert(sub.drop_last() =~= r@.subrange(a as int, k as int));
            assert(sub.last() == c);
            assert(digits_value(sub) == prev * 10 + digit_value(c));
            lemma_saturating_step(cap as int, prev as int, d as int);
        }
        k = k + 1;
    }
    acc
}

fn usize_or_one_exec(r: &Vec<char>, a: usize, b: usize) -> (v: usize)
    requires
        a <= b <= r@.len(),
    ensures
        v == usize_or_one(r@.subrange(a as int, b as int)),
{
    if !all_ascii_digits(r, a, b) {
        return 1;
    }
    assert forall|k: int| a <= k < b implies is_digit(#[trigger] r@[k]) by {
        assert(is_digit(r@.subrange(a as int, b as int)[k - a]));
    }
    let cap: u128 = usize::MAX as u128 + 1;
    let x = digits_saturating(r, a, b, cap);
    if x > usize::MAX as u128 {
        1
    } else {
        x as usize
    }
}

fn item_count_exec(r: &Vec<char>) -> (res: Option<(usize, usize)>)
    ensures
        res == item_count(r@),
{
    let p = chars_of("Downloading item ");
    if !occurs_at_exec(r, &p, 0) {
        return None;
    }
    let a = p.len();
    let b = skip_digits_exec(r, a);
    let of = chars_of(" of ");
    if b == a || !occurs_at_exec(r, &of, b) {
        return None;
    }
    let rl = r.len();
    assert(b + of@.len() <= rl);
    let c = b + of.len();
    let d = skip_digits_exec(r, c);
    if d == c || d != r.len() {
        return None;
    }
    proof {
        lemma_skip_digits_bounds(r@, a as int);
        lemma_skip_digits_bounds(r@, c as int);
    }
    Some((usize_or_one_exec(r, a, b), usize_or_one_exec(r, c, d)))
}

fn digit_of(c: char) -> (v: u64)
    requires
        is_digit(c),
    ensures
        v == digit_value(c),
        v < 10,
{
    ((c as u32) - ('0' as u32)) as u64
}

fn percent_exec(r: &Vec<char>) -> (res: Option<(usize, i64)>)
    ensures
        match res {
            Some((t, v)) => percent(r@) == Some((t as int, v)),
            None => percent(r@) is None,
        },
{
    let p0 = skip_space_exec(r, 0);
    let d1 = skip_digits_exec(r, p0);
    proof {
        lemma_skip_digits_bounds(r@, p0 as int);
    }
    let e = if d1 < r.len() && r[d1] == '.' {
        proof {
            lemma_skip_digits_bounds(r@, d1 + 1);
        }
        skip_digits_exec(r, d1 + 1)
    } else {
        d1
    };
    if p0 == 0 || d1 == p0 || e >= r.len() || r[e] != '%' {
        return None;
    }
    if !(all_ascii_digits(r, p0, d1) && (e <= d1 || all_ascii_digits(r, d1 + 1, e))) {
        return Some((e + 1, 0));
    }
    assert forall|k: int| p0 <= k < d1 implies is_digit(#[trigger] r@[k]) by {
        assert(is_digit(r@.subrange(p0 as int, d1 as int)[k - p0]));
    }
    assert forall|k: int| d1 + 1 <= k < e implies is_digit(#[trigger] r@[k]) by {
        assert(is_digit(r@.subrange(d1 + 1, e as int)[k - d1 - 1]));
    }
    let cap: u128 = 100_000_000_000_000_000;
    let int_part = digits_saturating(r, p0, d1, cap);
    let frac: u128 = if e > d1 + 1 {
        let hi = digit_of(r[d1 + 1]) as u128;
        let lo: u128 = if e > d1 + 2 {
            digit_of(r[d1 + 2]) as u128
        } else {
            0
        };
        hi * 10 + lo
    } else {
        0
    };
    let total: u128 = int_part * 100 + frac;
    let v: i64 = if total > i64::MAX as u128 {
        i64::MAX
    } else {
        total as i64
    };
    proof {
        let dv = digits_value(r@.subrange(p0 as int, d1 as int));
        assert(frac == frac_two(r@, d1 as int, e as int));
        if dv >= cap {
            assert(dv * 100 + frac > i64::MAX) by (nonlinear_arith)
                requires
                    dv >= 100_000_000_000_000_000int,
                    frac >= 0,
            ;
        }
    }
    Some((e + 1, v))
}

/// The trimmed text of `s`.
pub fn trimmed(s: &str) -> (r: String)
    ensures
        r@ == trim(s@),
{
    let cs = chars_of(s);
    let a = skip_space_exec(&cs, 0);
    let b = trim_end_exec(&cs, a, cs.len());
    substring(s, a, b)
}

/// The trimmed text of `s[lo..hi]`.
fn trim_sub(s: &str, lo: usize, hi: usize) -> (r: String)
    requires
        lo <= hi <= s@.len(),
    ensures
        r@ == trim(s@.subrange(lo as int, hi as int)),
{
    let sub = substring(s, lo, hi);
    trimmed(sub.as_str())
}

fn eta_at_exec(r: &Vec<char>, j: usize) -> (b: bool)
    ensures
        b == eta_at(r@, j as int),
{
    if j >= r.len() || !char_is_space(r[j]) {
        return false;
    }
    let e = skip_space_exec(r, j);
    let eta = chars_of("ETA");
    if !occurs_at_exec(r, &eta, e) {
        return false;
    }
    let f = e + eta.len();
    f < r.len() && char_is_space(r[f]) && r.len() - f >= 2
}

fn first_eta_exec(r: &Vec<char>, from: usize) -> (res: Option<usize>)
    ensures
        match res {
            Some(j) => first_eta(r@, from as int) == Some(j as int),
            None => first_eta(r@, from as int) is None,
        },
{
    let mut j = from;
    while j < r.len()
        invariant
            from <= j,
            first_eta(r@, j as int) == first_eta(r@, from as int),
        decreases r@.len() - j,
    {
        if eta_at_exec(r, j) {
            return Some(j);
        }
        j = j + 1;
    }
    None
}

fn eta_text_exec(r: &Vec<char>, rs: &str, j: usize) -> (t: String)
    requires
        r@ == rs@,
        eta_at(r@, j as int),
    ensures
        t@ == eta_text(r@, j as int),
{
    let e = skip_space_exec(r, j);
    let eta = chars_of("ETA");
    let rl = r.len();
    assert(e + eta@.len() <= rl);
    trim_sub(rs, e + eta.len(), rl)
}

fn after_at_exec(r: &Vec<char>, rs: &str, q: usize) -> (res: Option<(String, String)>)
    requires
        r@ == rs@,
    ensures
        match res {
            Some((sp, et)) => after_at(r@, q as int) == Some((sp@, et@)),
            None => after_at(r@, q as int) is None,
        },
{
    if q >= r.len() || !char_is_space(r[q]) {
        return None;
    }
    let w = skip_space_exec(r, q);
    let from = if w < r.len() {
        w + 1
    } else {
        w
    };
    proof {
        if w >= r@.len() {
            assert(first_eta(r@, w + 1) is None);
            assert(first_eta(r@, w as int) is None);
        }
    }
    match first_eta_exec(r, from) {
        Some(j) => {
            proof {
                lemma_first_eta(r@, w + 1);
            }
            let sp = trim_sub(rs, w, j);
            let et = eta_text_exec(r, rs, j);
            Some((sp, et))
        },
        None => {
            if w - q >= 3 && eta_at_exec(r, w - 1) {
                let et = eta_text_exec(r, rs, w - 1);
                Some((String::new(), et))
            } else {
                None
            }
        },
    }
}

proof fn lemma_first_eta(r: Seq<char>, j: int)
    requires
        0 <= j,
    ensures
        first_eta(r, j) matches Some(k) ==> j <= k < r.len() && eta_at(r, k),
    decreases r.len() - j,
{
    if j < r.len() && !eta_at(r, j) {
        lemma_first_eta(r, j + 1);
    }
}

fn progress_line_exec(r: &Vec<char>, rs: &str) -> (res: Option<(i64, String, String)>)
    requires
        r@ == rs@,
    ensures
        match res {
            Some((v, sp, et)) => progress_line(r@) == Some((v, sp@, et@)),
            None => progress_line(r@) is None,
        },
{
    let (t, v) = match percent_exec(r) {
        Some(x) => x,
        None => return None,
    };
    if r.len() < 2 {
        proof {
            assert(find_at(r@, t as int, r@.len() - 2) is None);
        }
        return None;
    }
    let at = chars_of("at");
    let mut a: usize = r.len() - 2;
    loop
        invariant
            a + 2 <= r@.len(),
            r@.len() == r.len(),
            r@ == rs@,
            at@ == "at"@,
            percent(r@) == Some((t as int, v)),
            find_at(r@, t as int, a as int) == find_at(r@, t as int, r@.len() - 2),
        decreases a,
    {
        if a < t {
            return None;
        }
        if occurs_at_exec(r, &at, a) {
            match after_at_exec(r, rs, a + 2) {
                Some((sp, et)) => {
                    return Some((v, sp, et));
                },
                None => {},
            }
        }
        if a == 0 {
            proof {
                assert(find_at(r@, t as int, -1) is None);
            }
            return None;
        }
        a = a - 1;
    }
}

/// `^<p>\s+(.+)$` on `r`: the trimmed capture.
fn titled_rest_exec(r: &Vec<char>, rs: &str, p: &str) -> (res: Option<String>)
    requires
        r@ == rs@,
    ensures
        match res {
            Some(t) => titled_rest(r@, p@) == Some(t@),
            None => titled_rest(r@, p@) is None,
        },
{
    let pc = chars_of(p);
    let n = pc.len();
    if occurs_at_exec(r, &pc, 0) && n < r.len() && char_is_space(r[n]) && r.len() - n >= 2 {
        Some(trim_sub(rs, n, r.len()))
    } else {
        None
    }
}

/// The text of `s` after its last path separator (`\` or `/`), or all of it.
pub fn last_segment_exec(s: &str) -> (r: String)
    ensures
        r@ == last_segment(s@),
{
    let cs = chars_of(s);
    let n = cs.len();
    let mut i: usize = n;
    while i > 0
        invariant
            i <= n,
            n == cs@.len(),
            cs@ == s@,
            last_sep_from(s@, i - 1) == last_sep_from(s@, n - 1),
        decreases i,
    {
        let c = cs[i - 1];
        if c == '\\' || c == '/' {
            return substring(s, i, n);
        }
        i = i - 1;
    }
    proof {
        assert(last_sep_from(s@, -1) is None);
    }
    substring(s, 0, n)
}

fn tail_at_exec(r: &Vec<char>, c: usize) -> (b: bool)
    ensures
        b == tail_at(r@, c as int),
{
    if c >= r.len() || !char_is_space(r[c]) {
        return false;
    }
    let h = chars_of("has already been downloaded");
    let e = skip_space_exec(r, c);
    occurs_at_exec(r, &h, e)
}

fn already_exec(r: &Vec<char>, rs: &str) -> (res: Option<String>)
    requires
        r@ == rs@,
    ensures
        match res {
            Some(p) => already_downloaded(r@) == Some(p@),
            None => already_downloaded(r@) is None,
        },
{
    if r.len() < 1 || !char_is_space(r[0]) {
        return None;
    }
    let mut c: usize = r.len() - 1;
    loop
        invariant
            c < r@.len(),
            r@.len() >= 1,
            is_space(r@[0]),
            r@ == rs@,
            last_tail(r@, c as int) == last_tail(r@, r@.len() - 1),
        decreases c,
    {
        if c < 2 {
            return None;
        }
        if tail_at_exec(r, c) {
            let w0 = skip_space_exec(r, 0);
            let s0 = if w0 < c - 1 {
                w0
            } else {
                c - 1
            };
            return Some(substring(rs, s0, c));
        }
        c = c - 1;
    }
}

fn merge_target_exec(r: &Vec<char>, rs: &str) -> (res: Option<String>)
    requires
        r@ == rs@,
    ensures
        match res {
            Some(p) => merge_target(r@) == Some(p@),
            None => merge_target(r@) is None,
        },
{
    let p = chars_of("Merging formats into \"");
    if occurs_at_exec(r, &p, 0) && r.len() - p.len() >= 2 && r[r.len() - 1] == '"' {
        Some(substring(rs, p.len(), r.len() - 1))
    } else {
        None
    }
}

fn starts_exec(l: &Vec<char>, p: &str) -> (b: bool)
    ensures
        b == starts_with(l@, p@),
{
    let pc = chars_of(p);
    occurs_at_exec(l, &pc, 0)
}

fn is_postprocess_exec(l: &Vec<char>) -> (b: bool)
    ensures
        b == is_postprocess(l@),
{
    starts_exec(l, "[ExtractAudio]") || starts_exec(l, "[FixupM4a]") || starts_exec(l, "[Fixup]")
        || starts_exec(l, "[ModifyChapters]") || starts_exec(l, "[EmbedThumbnail]") || starts_exec(
        l,
        "[MetadataParser]",
    )
}

fn classify_other_exec(l: &Vec<char>) -> (k: OutputLine)
    ensures
        k@ == classify_other(l@),
{
    if is_postprocess_exec(l) {
        OutputLine::PostProcessing
    } else {
        OutputLine::Other
    }
}

proof fn lemma_trim_start_prefix(r: Seq<char>, p: Seq<char>)
    ensures
        starts_with(trim_start(r), p) == occurs_at(r, p, skip_space(r, 0)),
{
    lemma_skip_space_bounds(r, 0);
    let a = skip_space(r, 0);
    let t = trim_start(r);
    if starts_with(t, p) {
        assert(r.subrange(a, a + p.len()) =~= t.subrange(0, p.len() as int));
    }
    if occurs_at(r, p, a) {
        assert(r.subrange(a, a + p.len()) =~= t.subrange(0, p.len() as int));
    }
}

fn classify_download_exec(l: &Vec<char>, r: &Vec<char>, rs: &str) -> (k: OutputLine)
    requires
        r@ == rs@,
    ensures
        k@ == classify_download(l@, r@),
{
    if let Some((current, total)) = item_count_exec(r) {
        return OutputLine::ItemCount { current, total };
    }
    if let Some((progress, speed, eta)) = progress_line_exec(r, rs) {
        return OutputLine::Progress { progress, speed, eta };
    }
    let a = skip_space_exec(r, 0);
    let hundred = chars_of("100% of");
    proof {
        lemma_trim_start_prefix(r@, "100% of"@);
    }
    if occurs_at_exec(r, &hundred, a) {
        return OutputLine::FullyDownloaded;
    }
    if let Some((_, progress)) = percent_exec(r) {
        return OutputLine::SimpleProgress { progress };
    }
    if let Some(path) = titled_rest_exec(r, rs, "Destination:") {
        return OutputLine::Destination { name: last_segment_exec(path.as_str()) };
    }
    if let Some(title) = titled_rest_exec(r, rs, "Downloading playlist:") {
        return OutputLine::PlaylistTitle { title };
    }
    if let Some(path) = already_exec(r, rs) {
        return OutputLine::AlreadyDownloaded { path };
    }
    classify_other_exec(l)
}

/// Classifies one line of yt-dlp's standard output.
pub fn classify_line(line: &str) -> (k: OutputLine)
    requires
        !line@.contains('\n'),
    ensures
        k@ == spec_classify(line@),
{
    let l = chars_of(line);
    let n = l.len();
    let dl = chars_of("[download] ");
    if occurs_at_exec(&l, &dl, 0) {
        let rest = line.substring_char(dl.len(), n);
        let r = chars_of(rest);
        return classify_download_exec(&l, &r, rest);
    }
    let mg = chars_of("[Merger] ");
    if occurs_at_exec(&l, &mg, 0) {
        let rest = line.substring_char(mg.len(), n);
        let r = chars_of(rest);
        if let Some(path) = merge_target_exec(&r, rest) {
            return OutputLine::Merging { path };
        }
    }
    classify_other_exec(&l)
}

} // verus!
