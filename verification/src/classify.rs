//! Classification of one raw diagnostic line into a typed event.
//!
//! The external build tool runs with raised verbosity, and a bundled
//! instrumentation script makes its evaluator emit extra trace lines.  Four
//! fixed textual patterns are recognised on the error stream; everything
//! else is carried through as plain (or undecodable) text.  Classification
//! is total, pure and byte-exact: a line that cannot be decoded as UTF-8 is
//! never an error, it is simply kept as raw bytes.

use vstd::prelude::*;
use vstd::slice::{slice_subrange, slice_to_vec};
use vstd::string::StringSliceAdditionalSpecFns;
use vstd::utf8::{decode_utf8, valid_utf8};

verus! {

/// The ASCII single quote that wraps every path the tool reports.
pub open spec fn quote() -> u8 {
    '\'' as u8
}

/// Bytes of `evaluating file '`: the start of a line printed for every
/// source file the evaluator opens.
pub open spec fn eval_prefix() -> Seq<u8> {
    seq![
        'e' as u8, 'v' as u8, 'a' as u8, 'l' as u8, 'u' as u8, 'a' as u8,
        't' as u8, 'i' as u8, 'n' as u8, 'g' as u8, ' ' as u8, 'f' as u8,
        'i' as u8, 'l' as u8, 'e' as u8, ' ' as u8, '\'' as u8,
    ]
}

/// Bytes of `copied source '`: the start of a line printed when a source
/// file or directory is copied verbatim into the store.
pub open spec fn copied_prefix() -> Seq<u8> {
    seq![
        'c' as u8, 'o' as u8, 'p' as u8, 'i' as u8, 'e' as u8, 'd' as u8,
        ' ' as u8, 's' as u8, 'o' as u8, 'u' as u8, 'r' as u8, 'c' as u8,
        'e' as u8, ' ' as u8, '\'' as u8,
    ]
}

/// Bytes of `' -> '`: the separator between the source and destination
/// sides of a `copied source` line.
pub open spec fn copied_sep() -> Seq<u8> {
    seq!['\'' as u8, ' ' as u8, '-' as u8, '>' as u8, ' ' as u8, '\'' as u8]
}

/// Bytes of `trace: lorri read: '`: the marker the instrumentation script
/// prints for whole-file and filtered-source reads, which require watching
/// the named subtree recursively.
pub open spec fn read_prefix() -> Seq<u8> {
    seq![
        't' as u8, 'r' as u8, 'a' as u8, 'c' as u8, 'e' as u8, ':' as u8,
        ' ' as u8, 'l' as u8, 'o' as u8, 'r' as u8, 'r' as u8, 'i' as u8,
        ' ' as u8, 'r' as u8, 'e' as u8, 'a' as u8, 'd' as u8, ':' as u8,
        ' ' as u8, '\'' as u8,
    ]
}

/// Bytes of `trace: lorri readdir: '`: the marker the instrumentation
/// script prints for directory-listing reads, which require watching only
/// the listing of the named directory.  It is textually distinct from the
/// recursive-read marker, so both classifications are reachable.
pub open spec fn readdir_prefix() -> Seq<u8> {
    seq![
        't' as u8, 'r' as u8, 'a' as u8, 'c' as u8, 'e' as u8, ':' as u8,
        ' ' as u8, 'l' as u8, 'o' as u8, 'r' as u8, 'r' as u8, 'i' as u8,
        ' ' as u8, 'r' as u8, 'e' as u8, 'a' as u8, 'd' as u8, 'd' as u8,
        'i' as u8, 'r' as u8, ':' as u8, ' ' as u8, '\'' as u8,
    ]
}

/// The pattern `pat` occurs in `line` at position `i`.
pub open spec fn occurs_at(line: Seq<u8>, pat: Seq<u8>, i: int) -> bool {
    0 <= i && i + pat.len() <= line.len() && line.subrange(i, i + pat.len() as int) == pat
}

/// `line` starts with `pat`.
pub open spec fn starts_with(line: Seq<u8>, pat: Seq<u8>) -> bool {
    occurs_at(line, pat, 0)
}

/// `line` is `prefix`, then anything, then a closing quote: the shape of
/// every single-capture diagnostic pattern.
pub open spec fn quoted_tail_match(line: Seq<u8>, prefix: Seq<u8>) -> bool {
    &&& line.len() > prefix.len()
    &&& starts_with(line, prefix)
    &&& line.last() == quote()
}

/// The captured path of a line of shape `prefix` + capture + quote.
pub open spec fn quoted_tail_capture(line: Seq<u8>, prefix: Seq<u8>) -> Seq<u8> {
    line.subrange(prefix.len() as int, line.len() - 1)
}

/// The source/destination separator of a `copied source` line sits at `i`:
/// at or after the capture's start, with room for at least the closing
/// quote behind it.
pub open spec fn copied_sep_at(line: Seq<u8>, i: int) -> bool {
    &&& copied_prefix().len() <= i
    &&& i + copied_sep().len() < line.len()
    &&& occurs_at(line, copied_sep(), i)
}

/// Position of the last separator occurrence at or before `i`, or -1 if
/// there is none.  The capture of a `copied source` line is greedy: it
/// extends to the last separator that leaves room for the closing quote.
pub open spec fn last_copied_sep(line: Seq<u8>, i: int) -> int
    decreases i + 1,
{
    if i < 0 {
        -1
    } else if copied_sep_at(line, i) {
        i
    } else {
        last_copied_sep(line, i - 1)
    }
}

/// `line` matches `copied source '<source>' -> '<destination>'`.
pub open spec fn copied_match(line: Seq<u8>) -> bool {
    &&& starts_with(line, copied_prefix())
    &&& line.len() > copied_prefix().len()
    &&& line.last() == quote()
    &&& last_copied_sep(line, line.len() - 1) >= 0
}

/// The source side of a `copied source` line: the bytes between the fixed
/// prefix and the last separator occurrence.
pub open spec fn copied_capture(line: Seq<u8>) -> Seq<u8> {
    line.subrange(copied_prefix().len() as int, last_copied_sep(line, line.len() - 1))
}

/// Classification of one line of diagnostic output, carrying the raw
/// bytes of the interesting part.  Every line yields exactly one datum.
#[derive(Debug, Clone, PartialEq)]
pub enum LogDatum {
    /// A source file opened by the evaluator (to be tracked).
    NixSourceFile(Vec<u8>),
    /// A file or directory copied verbatim into the store.
    CopiedSource(Vec<u8>),
    /// A whole-file or filtered-source read at evaluation time; the subtree
    /// must be watched recursively.
    ReadRecursively(Vec<u8>),
    /// A directory-listing read at evaluation time; only the listing of the
    /// directory must be watched, not its children.
    ReadDir(Vec<u8>),
    /// Arbitrary text that matches no pattern.
    Text(String),
    /// A line that could not be decoded as UTF-8, kept byte for byte.
    NonUtf(Vec<u8>),
}

/// The mathematical value of a `LogDatum`: paths as byte sequences, plain
/// text as the characters it decodes to.
pub enum LogDatumView {
    NixSourceFile(Seq<u8>),
    CopiedSource(Seq<u8>),
    ReadRecursively(Seq<u8>),
    ReadDir(Seq<u8>),
    Text(Seq<char>),
    NonUtf(Seq<u8>),
}

impl View for LogDatum {
    type V = LogDatumView;

    open spec fn view(&self) -> LogDatumView {
        match self {
            LogDatum::NixSourceFile(p) => LogDatumView::NixSourceFile(p@),
            LogDatum::CopiedSource(p) => LogDatumView::CopiedSource(p@),
            LogDatum::ReadRecursively(p) => LogDatumView::ReadRecursively(p@),
            LogDatum::ReadDir(p) => LogDatumView::ReadDir(p@),
            LogDatum::Text(t) => LogDatumView::Text(t@),
            LogDatum::NonUtf(t) => LogDatumView::NonUtf(t@),
        }
    }
}

/// What `parse_evaluation_line` returns for any line: undecodable bytes
/// pass through untouched, then the four patterns are tried in a fixed
/// priority order (most frequent first), and anything else is plain text.
pub open spec fn classify_spec(line: Seq<u8>) -> LogDatumView {
    if !valid_utf8(line) {
        LogDatumView::NonUtf(line)
    } else if quoted_tail_match(line, eval_prefix()) {
        LogDatumView::NixSourceFile(quoted_tail_capture(line, eval_prefix()))
    } else if copied_match(line) {
        LogDatumView::CopiedSource(copied_capture(line))
    } else if quoted_tail_match(line, read_prefix()) {
        LogDatumView::ReadRecursively(quoted_tail_capture(line, read_prefix()))
    } else if quoted_tail_match(line, readdir_prefix()) {
        LogDatumView::ReadDir(quoted_tail_capture(line, readdir_prefix()))
    } else {
        LogDatumView::Text(decode_utf8(line))
    }
}

/// The exact diagnostic line for a copy of `src` to `dst`.
pub open spec fn copied_line(src: Seq<u8>, dst: Seq<u8>) -> Seq<u8> {
    copied_prefix() + src + copied_sep() + dst + seq![quote()]
}

/// Below a position where the separator occurs, and under it alone, the
/// backward search stops exactly there.
proof fn lemma_last_sep_single(line: Seq<u8>, p: int, i: int)
    requires
        copied_sep_at(line, p),
        forall|j: int| copied_sep_at(line, j) ==> j == p,
        p <= i,
    ensures
        last_copied_sep(line, i) == p,
    decreases i - p,
{
    if i > p {
        assert(!copied_sep_at(line, i));
        lemma_last_sep_single(line, p, i - 1);
    }
}

/// A `copied source` line is classified to its source side, never to the
/// destination: the watcher must observe what the user edits, not the
/// store copy.  The separator is asked to occur only at its intended
/// place, which is how every line the tool prints for plain paths looks.
pub proof fn lemma_copied_line_captures_source(src: Seq<u8>, dst: Seq<u8>)
    requires
        valid_utf8(copied_line(src, dst)),
        forall|j: int|
            copied_sep_at(copied_line(src, dst), j) ==> j == copied_prefix().len() + src.len(),
    ensures
        classify_spec(copied_line(src, dst)) == LogDatumView::CopiedSource(src),
{
    let line = copied_line(src, dst);
    let p = copied_prefix().len() + src.len() as int;
    assert(line[0] == 'c' as u8);
    assert(!starts_with(line, eval_prefix())) by {
        if starts_with(line, eval_prefix()) {
            assert(line.subrange(0, eval_prefix().len() as int)[0] == line[0]);
        }
    }
    assert(line.subrange(0, copied_prefix().len() as int) =~= copied_prefix());
    assert(line.last() == quote());
    assert(line.subrange(p, p + copied_sep().len() as int) =~= copied_sep());
    assert(copied_sep_at(line, p));
    lemma_last_sep_single(line, p, line.len() - 1);
    assert(copied_match(line));
    assert(copied_capture(line) =~= src);
}

/// The recursive-read marker and the directory-listing marker are
/// textually distinct, so a directory-listing line really classifies to
/// the listing variant: the two trace markers never collapse into one.
pub proof fn lemma_readdir_marker_classifies_readdir(line: Seq<u8>)
    requires
        valid_utf8(line),
        quoted_tail_match(line, readdir_prefix()),
    ensures
        classify_spec(line) == LogDatumView::ReadDir(quoted_tail_capture(line, readdir_prefix())),
{
    assert(line.subrange(0, readdir_prefix().len() as int) == readdir_prefix());
    assert(line[17] == 'd' as u8) by {
        assert(line.subrange(0, readdir_prefix().len() as int)[17] == line[17]);
    }
    assert(!starts_with(line, eval_prefix())) by {
        if starts_with(line, eval_prefix()) {
            assert(line.subrange(0, eval_prefix().len() as int)[0] == line[0]);
            assert(line.subrange(0, readdir_prefix().len() as int)[0] == line[0]);
        }
    }
    assert(!starts_with(line, copied_prefix())) by {
        if starts_with(line, copied_prefix()) {
            assert(line.subrange(0, copied_prefix().len() as int)[0] == line[0]);
            assert(line.subrange(0, readdir_prefix().len() as int)[0] == line[0]);
        }
    }
    assert(!starts_with(line, read_prefix())) by {
        if starts_with(line, read_prefix()) {
            assert(line.subrange(0, read_prefix().len() as int)[17] == line[17]);
        }
    }
}

/// A recursive-read line classifies to the recursive variant; together
/// with the lemma above, the two markers never yield the same datum.
pub proof fn lemma_read_marker_classifies_read(line: Seq<u8>)
    requires
        valid_utf8(line),
        quoted_tail_match(line, read_prefix()),
    ensures
        classify_spec(line) == LogDatumView::ReadRecursively(
            quoted_tail_capture(line, read_prefix()),
        ),
{
    assert(line.subrange(0, read_prefix().len() as int) == read_prefix());
    assert(line[0] == 't' as u8) by {
        assert(line.subrange(0, read_prefix().len() as int)[0] == line[0]);
    }
    assert(!starts_with(line, eval_prefix())) by {
        if starts_with(line, eval_prefix()) {
            assert(line.subrange(0, eval_prefix().len() as int)[0] == line[0]);
        }
    }
    assert(!starts_with(line, copied_prefix())) by {
        if starts_with(line, copied_prefix()) {
            assert(line.subrange(0, copied_prefix().len() as int)[0] == line[0]);
        }
    }
}

/// Classifying the same line twice yields identical data: classification
/// is a pure function of the line's bytes, with no hidden state.
pub proof fn lemma_classification_idempotent(line: Seq<u8>, d1: LogDatumView, d2: LogDatumView)
    requires
        d1 == classify_spec(line),
        d2 == classify_spec(line),
    ensures
        d1 == d2,
{
}

/// Declares core::str::Utf8Error, the error a failed decode returns; it
/// is only ever discarded.
#[verifier::external_type_specification]
#[verifier::external_body]
pub struct ExUtf8Error(core::str::Utf8Error);

/// Relies on core::str::from_utf8: it returns `Ok` exactly on valid UTF-8
/// input, and the returned slice is backed by the same bytes.
pub assume_specification<'a>[ core::str::from_utf8 ](v: &'a [u8]) -> (r: Result<
    &'a str,
    core::str::Utf8Error,
>)
    ensures
        r is Ok <==> valid_utf8(v@),
        r matches Ok(s) ==> s.spec_bytes() == v@,
;

/// Whether `pat` occurs in `line` at position `i`.
fn occurs_check(line: &[u8], pat: &[u8], i: usize) -> (b: bool)
    ensures
        b == occurs_at(line@, pat@, i as int),
{
    if i > line.len() || pat.len() > line.len() - i {
        return false;
    }
    let mut j: usize = 0;
    while j < pat.len()
        invariant
            j <= pat@.len(),
            i + pat@.len() <= line@.len(),
            line@.len() <= usize::MAX,
            forall|k: int| 0 <= k < j ==> line@[i + k] == pat@[k],
        decreases pat@.len() - j,
    {
        if line[i + j] != pat[j] {
            proof {
                assert(!occurs_at(line@, pat@, i as int)) by {
                    if occurs_at(line@, pat@, i as int) {
                        assert(line@.subrange(i as int, i + pat@.len() as int)[j as int]
                            == line@[i + j]);
                    }
                }
            }
            return false;
        }
        j += 1;
    }
    proof {
        assert(line@.subrange(i as int, i + pat@.len() as int) =~= pat@);
    }
    true
}

/// Tries a single-capture pattern: `prefix`, anything, closing quote.
fn match_quoted(line: &[u8], prefix: &[u8]) -> (r: Option<Vec<u8>>)
    ensures
        r is Some <==> quoted_tail_match(line@, prefix@),
        r matches Some(c) ==> c@ == quoted_tail_capture(line@, prefix@),
{
    if line.len() > prefix.len() && occurs_check(line, prefix, 0) {
        if line[line.len() - 1] == '\'' as u8 {
            return Some(slice_to_vec(slice_subrange(line, prefix.len(), line.len() - 1)));
        }
    }
    None
}

/// Finds the last separator occurrence of a `copied source` line.
fn find_last_copied_sep(line: &[u8], sep: &[u8], prefix_len: usize) -> (r: Option<usize>)
    requires
        sep@ == copied_sep(),
        prefix_len == copied_prefix().len(),
    ensures
        r matches Some(i) ==> last_copied_sep(line@, line@.len() - 1) == i as int
            && copied_sep_at(line@, i as int),
        r is None ==> last_copied_sep(line@, line@.len() - 1) == -1,
{
    let mut i: usize = line.len();
    while i > 0
        invariant
            i <= line@.len(),
            sep@ == copied_sep(),
            prefix_len == copied_prefix().len(),
            last_copied_sep(line@, line@.len() - 1) == last_copied_sep(line@, i as int - 1),
        decreases i,
    {
        i = i - 1;
        if i >= prefix_len && sep.len() < line.len() - i && occurs_check(line, sep, i) {
            return Some(i);
        }
        proof {
            assert(!copied_sep_at(line@, i as int));
        }
    }
    None
}

/// Examine a line of output and extract interesting log items into
/// structured data.
pub fn parse_evaluation_line(line: &[u8]) -> (r: LogDatum)
    ensures
        r@ == classify_spec(line@),
{
    let text = match core::str::from_utf8(line) {
        Ok(s) => s,
        Err(_) => {
            return LogDatum::NonUtf(slice_to_vec(line));
        },
    };
    let eval_p = prefix_bytes(PatternKind::EvalFile);
    if let Some(c) = match_quoted(line, eval_p.as_slice()) {
        return LogDatum::NixSourceFile(c);
    }
    let copied_p = prefix_bytes(PatternKind::Copied);
    let sep = sep_bytes();
    if line.len() > copied_p.len() && occurs_check(line, copied_p.as_slice(), 0)
        && line[line.len() - 1] == '\'' as u8 {
        if let Some(i) = find_last_copied_sep(line, sep.as_slice(), copied_p.len()) {
            return LogDatum::CopiedSource(slice_to_vec(slice_subrange(line, copied_p.len(), i)));
        }
    }
    let read_p = prefix_bytes(PatternKind::Read);
    if let Some(c) = match_quoted(line, read_p.as_slice()) {
        return LogDatum::ReadRecursively(c);
    }
    let readdir_p = prefix_bytes(PatternKind::ReadDir);
    if let Some(c) = match_quoted(line, readdir_p.as_slice()) {
        return LogDatum::ReadDir(c);
    }
    proof {
        vstd::utf8::encode_utf8_decode_utf8(text@);
    }
    LogDatum::Text(text.to_owned())
}

/// The separator bytes of a `copied source` line, as runtime data.
fn sep_bytes() -> (r: Vec<u8>)
    ensures
        r@ == copied_sep(),
{
    let mut v: Vec<u8> = Vec::new();
    v.push('\'' as u8);
    v.push(' ' as u8);
    v.push('-' as u8);
    v.push('>' as u8);
    v.push(' ' as u8);
    v.push('\'' as u8);
    proof {
        assert(v@ =~= copied_sep());
    }
    v
}

/// Selects one of the four fixed line patterns.
enum PatternKind {
    EvalFile,
    Copied,
    Read,
    ReadDir,
}

impl PatternKind {
    /// The spec bytes of this pattern's prefix.
    spec fn spec_prefix(self) -> Seq<u8> {
        match self {
            PatternKind::EvalFile => eval_prefix(),
            PatternKind::Copied => copied_prefix(),
            PatternKind::Read => read_prefix(),
            PatternKind::ReadDir => readdir_prefix(),
        }
    }
}

/// The prefix bytes of the chosen pattern, as runtime data.
fn prefix_bytes(kind: PatternKind) -> (r: Vec<u8>)
    ensures
        r@ == kind.spec_prefix(),
{
    let mut v: Vec<u8> = Vec::new();
    match kind {
        PatternKind::EvalFile => {
            v.push('e' as u8);
            v.push('v' as u8);
            v.push('a' as u8);
            v.push('l' as u8);
            v.push('u' as u8);
            v.push('a' as u8);
            v.push('t' as u8);
            v.push('i' as u8);
            v.push('n' as u8);
            v.push('g' as u8);
            v.push(' ' as u8);
            v.push('f' as u8);
            v.push('i' as u8);
            v.push('l' as u8);
            v.push('e' as u8);
            v.push(' ' as u8);
            v.push('\'' as u8);
            proof {
                assert(v@ =~= eval_prefix());
            }
        }
        PatternKind::Copied => {
            v.push('c' as u8);
            v.push('o' as u8);
            v.push('p' as u8);
            v.push('i' as u8);
            v.push('e' as u8);
            v.push('d' as u8);
            v.push(' ' as u8);
            v.push('s' as u8);
            v.push('o' as u8);
            v.push('u' as u8);
            v.push('r' as u8);
            v.push('c' as u8);
            v.push('e' as u8);
            v.push(' ' as u8);
            v.push('\'' as u8);
            proof {
                assert(v@ =~= copied_prefix());
            }
        }
        PatternKind::Read => {
            v.push('t' as u8);
            v.push('r' as u8);
            v.push('a' as u8);
            v.push('c' as u8);
            v.push('e' as u8);
            v.push(':' as u8);
            v.push(' ' as u8);
            v.push('l' as u8);
            v.push('o' as u8);
            v.push('r' as u8);
            v.push('r' as u8);
            v.push('i' as u8);
            v.push(' ' as u8);
            v.push('r' as u8);
            v.push('e' as u8);
            v.push('a' as u8);
            v.push('d' as u8);
            v.push(':' as u8);
            v.push(' ' as u8);
            v.push('\'' as u8);
            proof {
                assert(v@ =~= read_prefix());
            }
        }
        PatternKind::ReadDir => {
            v.push('t' as u8);
            v.push('r' as u8);
            v.push('a' as u8);
            v.push('c' as u8);
            v.push('e' as u8);
            v.push(':' as u8);
            v.push(' ' as u8);
            v.push('l' as u8);
            v.push('o' as u8);
            v.push('r' as u8);
            v.push('r' as u8);
            v.push('i' as u8);
            v.push(' ' as u8);
            v.push('r' as u8);
            v.push('e' as u8);
            v.push('a' as u8);
            v.push('d' as u8);
            v.push('d' as u8);
            v.push('i' as u8);
            v.push('r' as u8);
            v.push(':' as u8);
            v.push(' ' as u8);
            v.push('\'' as u8);
            proof {
                assert(v@ =~= readdir_prefix());
            }
        }
    }
    v
}

} // verus!
