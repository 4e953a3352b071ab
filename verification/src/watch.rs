//! Folding classified events into the final list of paths to watch.
//!
//! The fold mirrors the external tool's implicit-file resolution: a source
//! file reported for a directory actually means the nested `default.nix`,
//! so the watch entry names that file instead of the directory.  Entries
//! keep insertion order and are not deduplicated here; the external watcher
//! registers idempotently.

use crate::classify::{LogDatum, LogDatumView};
use vstd::prelude::*;
use vstd::string::StrSliceExecFns;

verus! {

/// A filesystem path the external watcher must observe.
#[derive(Debug, Clone, PartialEq)]
pub enum WatchPathBuf {
    /// Watch this exact path: a file's contents, or a directory's listing
    /// only, never the children of a directory.
    Normal(Vec<u8>),
    /// Watch the whole subtree below this path.
    Recursive(Vec<u8>),
}

/// The mathematical value of a `WatchPathBuf`.
pub enum WatchPathBufView {
    Normal(Seq<u8>),
    Recursive(Seq<u8>),
}

impl View for WatchPathBuf {
    type V = WatchPathBufView;

    open spec fn view(&self) -> WatchPathBufView {
        match self {
            WatchPathBuf::Normal(p) => WatchPathBufView::Normal(p@),
            WatchPathBuf::Recursive(p) => WatchPathBufView::Recursive(p@),
        }
    }
}

/// Bytes of `default.nix`, the file the evaluator implicitly resolves a
/// directory import to.
pub open spec fn default_file() -> Seq<u8> {
    seq![
        'd' as u8, 'e' as u8, 'f' as u8, 'a' as u8, 'u' as u8, 'l' as u8,
        't' as u8, '.' as u8, 'n' as u8, 'i' as u8, 'x' as u8,
    ]
}

/// The path watched for an evaluated source file: a directory is rewritten
/// to its nested `default.nix`, any other path stands as reported.
pub open spec fn resolved_source(p: Seq<u8>, is_dir: bool) -> Seq<u8> {
    if is_dir {
        if p.len() > 0 && p.last() == '/' as u8 {
            p + default_file()
        } else {
            p + seq!['/' as u8] + default_file()
        }
    } else {
        p
    }
}

/// The watch entries one datum contributes.  `is_dir` tells whether the
/// datum's path names a directory on disk; it only matters for evaluated
/// source files.
pub open spec fn watch_step(d: LogDatumView, is_dir: bool) -> Seq<WatchPathBufView> {
    match d {
        LogDatumView::NixSourceFile(p) => seq![
            WatchPathBufView::Normal(resolved_source(p, is_dir)),
        ],
        LogDatumView::CopiedSource(p) => seq![WatchPathBufView::Recursive(p)],
        LogDatumView::ReadRecursively(p) => seq![WatchPathBufView::Recursive(p)],
        LogDatumView::ReadDir(p) => seq![WatchPathBufView::Normal(p)],
        LogDatumView::Text(_) => Seq::empty(),
        LogDatumView::NonUtf(_) => Seq::empty(),
    }
}

/// The log lines one datum contributes: only unclassified output is kept,
/// for error reporting; decoded text goes back to its bytes, undecodable
/// lines stay byte for byte.
pub open spec fn log_step(d: LogDatumView) -> Seq<Seq<u8>> {
    match d {
        LogDatumView::Text(t) => seq![vstd::utf8::encode_utf8(t)],
        LogDatumView::NonUtf(t) => seq![t],
        _ => Seq::empty(),
    }
}

/// The whole watch list of a classified stream, in insertion order.
pub open spec fn watch_fold(data: Seq<LogDatumView>, dirs: Seq<bool>) -> Seq<WatchPathBufView>
    recommends
        dirs.len() == data.len(),
    decreases data.len(),
{
    if data.len() == 0 {
        Seq::empty()
    } else {
        watch_fold(data.drop_last(), dirs.drop_last()) + watch_step(
            data.last(),
            dirs[data.len() - 1],
        )
    }
}

/// The whole diagnostic log buffer of a classified stream.
pub open spec fn log_fold(data: Seq<LogDatumView>) -> Seq<Seq<u8>>
    decreases data.len(),
{
    if data.len() == 0 {
        Seq::empty()
    } else {
        log_fold(data.drop_last()) + log_step(data.last())
    }
}

/// The views of a sequence of classified data.
pub open spec fn datum_views(data: Seq<LogDatum>) -> Seq<LogDatumView> {
    data.map_values(|d: LogDatum| d@)
}

/// The views of a sequence of watch entries.
pub open spec fn watch_views(ps: Seq<WatchPathBuf>) -> Seq<WatchPathBufView> {
    ps.map_values(|p: WatchPathBuf| p@)
}

/// The views of a sequence of byte vectors.
pub open spec fn byte_views(ls: Seq<Vec<u8>>) -> Seq<Seq<u8>> {
    ls.map_values(|l: Vec<u8>| l@)
}

/// An evaluated source line whose path is a directory on disk folds to a
/// non-recursive watch entry for the nested `default.nix`, never for the
/// directory itself: the evaluator reports the directory but actually
/// reads the nested file.
pub proof fn lemma_directory_source_watched_at_default(line: Seq<u8>, is_dir: bool)
    requires
        vstd::utf8::valid_utf8(line),
        crate::classify::quoted_tail_match(line, crate::classify::eval_prefix()),
        is_dir,
    ensures
        ({
            let p = crate::classify::quoted_tail_capture(line, crate::classify::eval_prefix());
            &&& watch_step(crate::classify::classify_spec(line), is_dir) == seq![
                WatchPathBufView::Normal(resolved_source(p, true)),
            ]
            &&& resolved_source(p, true) != p
        }),
{
    let p = crate::classify::quoted_tail_capture(line, crate::classify::eval_prefix());
    assert(resolved_source(p, true).len() > p.len());
}

/// A `copied source` line folds to a recursive watch entry for the source
/// side of the copy, and never one for the destination.
pub proof fn lemma_copied_line_watched_recursively(src: Seq<u8>, dst: Seq<u8>, is_dir: bool)
    requires
        vstd::utf8::valid_utf8(crate::classify::copied_line(src, dst)),
        forall|j: int|
            crate::classify::copied_sep_at(crate::classify::copied_line(src, dst), j) ==> j
                == crate::classify::copied_prefix().len() + src.len(),
    ensures
        watch_step(crate::classify::classify_spec(crate::classify::copied_line(src, dst)), is_dir)
            == seq![WatchPathBufView::Recursive(src)],
{
    crate::classify::lemma_copied_line_captures_source(src, dst);
}

/// A line that fails text decoding classifies to the undecodable variant
/// with its bytes untouched, contributes no watch entry, and its bytes
/// reach the diagnostic log buffer byte for byte.
pub proof fn lemma_undecodable_line_kept(line: Seq<u8>, is_dir: bool)
    requires
        !vstd::utf8::valid_utf8(line),
    ensures
        crate::classify::classify_spec(line) == LogDatumView::NonUtf(line),
        log_step(crate::classify::classify_spec(line)) == seq![line],
        watch_step(crate::classify::classify_spec(line), is_dir) == Seq::<WatchPathBufView>::empty(),
{
}

/// Every undecodable line of a classified stream survives the whole fold:
/// its exact bytes are an element of the diagnostic log buffer.
pub proof fn lemma_log_fold_keeps_undecodable(data: Seq<LogDatumView>, i: int, b: Seq<u8>)
    requires
        0 <= i < data.len(),
        data[i] == LogDatumView::NonUtf(b),
    ensures
        log_fold(data).contains(b),
    decreases data.len(),
{
    if i == data.len() - 1 {
        assert(log_step(data.last()) == seq![b]);
        assert(log_fold(data)[log_fold(data).len() - 1] == b);
    } else {
        lemma_log_fold_keeps_undecodable(data.drop_last(), i, b);
        let j = choose|j: int|
            0 <= j < log_fold(data.drop_last()).len() && log_fold(data.drop_last())[j] == b;
        assert(log_fold(data)[j] == b);
    }
}

/// Copies a byte vector.
pub(crate) fn copy_bytes(p: &Vec<u8>) -> (r: Vec<u8>)
    ensures
        r@ == p@,
{
    vstd::slice::slice_to_vec(p.as_slice())
}

/// Rewrites an evaluated source path to the file actually read.
fn resolve_source_path(p: &Vec<u8>, is_dir: bool) -> (r: Vec<u8>)
    ensures
        r@ == resolved_source(p@, is_dir),
{
    let mut out = copy_bytes(p);
    if is_dir {
        if !(out.len() > 0 && out[out.len() - 1] == '/' as u8) {
            out.push('/' as u8);
        }
        out.push('d' as u8);
        out.push('e' as u8);
        out.push('f' as u8);
        out.push('a' as u8);
        out.push('u' as u8);
        out.push('l' as u8);
        out.push('t' as u8);
        out.push('.' as u8);
        out.push('n' as u8);
        out.push('i' as u8);
        out.push('x' as u8);
        proof {
            assert(out@ =~= resolved_source(p@, is_dir));
        }
    }
    out
}

/// Relies on std::path::Path::is_dir: asks the filesystem whether the path
/// names an existing directory.  The answer depends on the machine's
/// state, so nothing is assumed of it.
#[verifier::external_body]
fn path_is_dir(p: &str) -> bool {
    std::path::Path::new(p).is_dir()
}

/// Whether the path bytes name an existing directory; bytes that are not
/// text name no directory.
fn path_bytes_are_dir(p: &Vec<u8>) -> bool {
    match core::str::from_utf8(p.as_slice()) {
        Ok(s) => path_is_dir(s),
        Err(_) => false,
    }
}

/// Folds a classified stream into watch entries and the diagnostic log
/// buffer, with the directory answer for each datum supplied by the
/// caller.  This is the pure core of the watch-list builder.
pub fn fold_reference_paths(data: &Vec<LogDatum>, dirs: &Vec<bool>) -> (r: (
    Vec<WatchPathBuf>,
    Vec<Vec<u8>>,
))
    requires
        dirs@.len() == data@.len(),
    ensures
        watch_views(r.0@) == watch_fold(datum_views(data@), dirs@),
        byte_views(r.1@) == log_fold(datum_views(data@)),
{
    let mut paths: Vec<WatchPathBuf> = Vec::new();
    let mut log_lines: Vec<Vec<u8>> = Vec::new();
    let ghost all = datum_views(data@);
    let mut i: usize = 0;
    while i < data.len()
        invariant
            i <= data@.len(),
            dirs@.len() == data@.len(),
            all == datum_views(data@),
            watch_views(paths@) == watch_fold(all.take(i as int), dirs@.take(i as int)),
            byte_views(log_lines@) == log_fold(all.take(i as int)),
        decreases data@.len() - i,
    {
        proof {
            assert(all.take(i + 1).drop_last() =~= all.take(i as int));
            assert(dirs@.take(i + 1).drop_last() =~= dirs@.take(i as int));
            assert(all.take(i + 1).last() == all[i as int]);
            assert(all[i as int] == data@[i as int]@);
        }
        let ghost old_paths = paths@;
        let ghost old_logs = log_lines@;
        match &data[i] {
            LogDatum::NixSourceFile(p) => {
                let rp = resolve_source_path(p, dirs[i]);
                paths.push(WatchPathBuf::Normal(rp));
            }
            LogDatum::CopiedSource(p) => {
                paths.push(WatchPathBuf::Recursive(copy_bytes(p)));
            }
            LogDatum::ReadRecursively(p) => {
                paths.push(WatchPathBuf::Recursive(copy_bytes(p)));
            }
            LogDatum::ReadDir(p) => {
                paths.push(WatchPathBuf::Normal(copy_bytes(p)));
            }
            LogDatum::Text(t) => {
                log_lines.push(t.as_str().as_bytes_vec());
            }
            LogDatum::NonUtf(t) => {
                log_lines.push(copy_bytes(t));
            }
        }
        proof {
            assert(watch_views(paths@) =~= watch_views(old_paths) + watch_step(
                all[i as int],
                dirs@[i as int],
            ));
            assert(byte_views(log_lines@) =~= byte_views(old_logs) + log_step(all[i as int]));
        }
        i += 1;
    }
    proof {
        assert(all.take(data@.len() as int) =~= all);
        assert(dirs@.take(data@.len() as int) =~= dirs@);
    }
    (paths, log_lines)
}

/// Folds a classified stream into watch entries and the diagnostic log
/// buffer, asking the filesystem which evaluated source paths name
/// directories.  The answers depend on the machine's state, so the result
/// is the pure fold under some sequence of directory answers.
pub fn scan_reference_paths(data: &Vec<LogDatum>) -> (r: (Vec<WatchPathBuf>, Vec<Vec<u8>>))
    ensures
        exists|dirs: Seq<bool>|
            dirs.len() == data@.len() && watch_views(r.0@) == watch_fold(
                datum_views(data@),
                dirs,
            ),
        byte_views(r.1@) == log_fold(datum_views(data@)),
{
    let mut dirs: Vec<bool> = Vec::new();
    let mut i: usize = 0;
    while i < data.len()
        invariant
            i <= data@.len(),
            dirs@.len() == i,
        decreases data@.len() - i,
    {
        let d = match &data[i] {
            LogDatum::NixSourceFile(p) => path_bytes_are_dir(p),
            _ => false,
        };
        dirs.push(d);
        i += 1;
    }
    let r = fold_reference_paths(data, &dirs);
    proof {
        assert(dirs@.len() == data@.len() && watch_views(r.0@) == watch_fold(
            datum_views(data@),
            dirs@,
        ));
    }
    r
}

} // verus!
