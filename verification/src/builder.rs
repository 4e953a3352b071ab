//! Assembling an instrumented run of the external build tool.
//!
//! The tool is spawned twice per build: an instantiate step, whose two
//! output streams are drained concurrently by the caller, and a build
//! (realize) step.  Everything that can be decided from plain values is
//! decided here: the exact command line of the instantiate step, the
//! folding of its classified error stream, the exit-status decision, and
//! the pairing of the produced artifact with the ownership handle that
//! keeps its garbage-collection root alive.

pub use crate::classify::{parse_evaluation_line, LogDatum, LogDatumView};
pub use crate::error::{BuildError, BuildErrorView, LogLine};
pub use crate::watch::{WatchPathBuf, WatchPathBufView};

use crate::watch::{datum_views, log_fold, scan_reference_paths, watch_fold, watch_views};
use vstd::prelude::*;
use vstd::string::StringExecFns;

verus! {

/// Relies on tempfile::TempDir only as an opaque owned value: holding one
/// keeps its directory alive, dropping it removes the directory.
#[verifier::external_type_specification]
#[verifier::external_body]
pub struct ExTempDir(tempfile::TempDir);

/// Opaque handle that keeps a temporary GC-root directory alive.  Once the
/// handle is dropped, the directory and the root inside it are removed.
///
/// The held directory is a `tempfile::TempDir`, declared above so that it
/// can stand in a field; nothing is assumed about it.
#[derive(Debug)]
pub struct GcRootTempDir(tempfile::TempDir);

impl GcRootTempDir {
    /// Wraps the temporary directory whose lifetime pins the root.
    pub fn from_tempdir(dir: tempfile::TempDir) -> GcRootTempDir {
        GcRootTempDir(dir)
    }
}

/// A not-yet-built artifact reference, kept alive by an ephemeral GC root.
#[derive(Debug)]
pub struct RootedDrv {
    /// The handle to a temporary directory keeping `path` alive.
    pub gc_handle: GcRootTempDir,
    /// The produced artifact reference, as the bytes the tool printed.
    pub path: Vec<u8>,
}

/// Output of the instantiate step.
#[derive(Debug)]
pub struct InstantiateOutput {
    /// All the paths identified during the instantiation.
    pub referenced_paths: Vec<WatchPathBuf>,
    /// The produced artifact reference with its root handle.
    pub output: RootedDrv,
}

/// Represents a path which is temporarily rooted in a temporary directory.
///
/// Users are required to keep `gc_handle` alive for as long as `path` is
/// used, or re-root `path` permanently before dropping `gc_handle`.
#[derive(Debug)]
pub struct RootedPath {
    /// The handle to a temporary directory keeping `path` alive.
    pub gc_handle: GcRootTempDir,
    /// The realized store path.
    pub path: Vec<u8>,
}

/// The result of a single instantiation and build.
#[derive(Debug)]
pub struct RunResult {
    /// All the paths identified during the instantiation.
    pub referenced_paths: Vec<WatchPathBuf>,
    /// The status of the build attempt.
    pub result: RootedPath,
}

/// Output path generated by the instrumented evaluation.
#[derive(Debug, Clone)]
pub struct OutputPath<T> {
    /// Shell path modified to work as a gc root.
    pub shell_gc_root: T,
}

impl<T> OutputPath<T> {
    /// Map over the inner type.
    pub fn map<F, T2>(self, f: F) -> (r: OutputPath<T2>) where F: Fn(T) -> T2
        requires
            call_requires(f, (self.shell_gc_root,)),
        ensures
            call_ensures(f, (self.shell_gc_root,), r.shell_gc_root),
    {
        OutputPath { shell_gc_root: f(self.shell_gc_root) }
    }
}

/// The views of a sequence of strings.
pub open spec fn string_views(ss: Seq<String>) -> Seq<Seq<char>> {
    ss.map_values(|s: String| s@)
}

/// The exact argument list of the instantiate step: the verbose flag, the
/// caller's extra options first (so they are visible in traces), the
/// ephemeral indirect-root flags, the named runtime-closure and source
/// arguments, then the instrumentation script as the evaluated expression.
pub open spec fn instantiate_args_spec(
    extra: Seq<Seq<char>>,
    gc_root_dir: Seq<char>,
    run_time_closure: Seq<char>,
    nix_file: Seq<char>,
    script: Seq<char>,
) -> Seq<Seq<char>> {
    seq!["-vv"@] + extra + seq![
        "--add-root"@,
        gc_root_dir + "/result"@,
        "--indirect"@,
        "--argstr"@,
        "runTimeClosure"@,
        run_time_closure,
        "--argstr"@,
        "src"@,
        nix_file,
        "--"@,
        script,
    ]
}

/// Builds the argument list for the instantiate step.
pub fn instantiate_command_args(
    extra_nix_options: &Vec<String>,
    gc_root_dir: &String,
    run_time_closure: &String,
    nix_file: &String,
    script: &String,
) -> (args: Vec<String>)
    ensures
        string_views(args@) == instantiate_args_spec(
            string_views(extra_nix_options@),
            gc_root_dir@,
            run_time_closure@,
            nix_file@,
            script@,
        ),
{
    let mut args: Vec<String> = Vec::new();
    // verbose mode prints the files we track
    args.push(String::from_str("-vv"));
    // put the passed extra options at the front to make them more visible
    // in traces
    let mut i: usize = 0;
    while i < extra_nix_options.len()
        invariant
            i <= extra_nix_options@.len(),
            string_views(args@) == seq!["-vv"@] + string_views(extra_nix_options@.take(i as int)),
        decreases extra_nix_options@.len() - i,
    {
        let ghost before = args@;
        let x = extra_nix_options[i].clone();
        let ghost xv = x@;
        args.push(x);
        proof {
            assert(xv == extra_nix_options@[i as int]@);
            assert(string_views(args@) =~= string_views(before).push(xv));
            assert(seq!["-vv"@] + string_views(extra_nix_options@.take(i + 1)) =~= (seq!["-vv"@]
                + string_views(extra_nix_options@.take(i as int))).push(xv));
            assert(string_views(args@) =~= seq!["-vv"@] + string_views(
                extra_nix_options@.take(i + 1),
            ));
        }
        i += 1;
    }
    proof {
        assert(extra_nix_options@.take(extra_nix_options@.len() as int) =~= extra_nix_options@);
    }
    // a temporary indirect GC root
    args.push(String::from_str("--add-root"));
    args.push(String::from_str(gc_root_dir.as_str()).concat("/result"));
    args.push(String::from_str("--indirect"));
    args.push(String::from_str("--argstr"));
    // runtime paths to needed dependencies that come bundled
    args.push(String::from_str("runTimeClosure"));
    args.push(String::from_str(run_time_closure.as_str()));
    // the source file
    args.push(String::from_str("--argstr"));
    args.push(String::from_str("src"));
    args.push(String::from_str(nix_file.as_str()));
    // instrumented by the bundled evaluation script
    args.push(String::from_str("--"));
    args.push(String::from_str(script.as_str()));
    proof {
        assert(string_views(args@) =~= instantiate_args_spec(
            string_views(extra_nix_options@),
            gc_root_dir@,
            run_time_closure@,
            nix_file@,
            script@,
        ));
    }
    args
}

/// Whether an exit code reports success: code zero, and never a process
/// that a signal terminated.
pub open spec fn exit_success(code: Option<i32>) -> bool {
    code == Some(0i32)
}

/// Combines everything the instantiate step produced into its result:
/// on success, the watch list and the single produced artifact paired with
/// the root handle; on failure, an exit error that carries the unclassified
/// diagnostic lines.
///
/// A successful run that produced anything but exactly one artifact breaks
/// the contract of the bundled instrumentation script; such a run is not a
/// recoverable build error and is ruled out up front, so the caller must
/// halt loudly on it instead.
pub fn assemble_instantiation(
    cmd: String,
    code: Option<i32>,
    products: Vec<Vec<u8>>,
    data: Vec<LogDatum>,
    gc_handle: GcRootTempDir,
) -> (r: Result<InstantiateOutput, BuildError>)
    requires
        exit_success(code) ==> products@.len() == 1,
    ensures
        r is Ok <==> exit_success(code),
        r matches Ok(out) ==> {
            &&& out.output.path@ == products@[0]@
            &&& exists|dirs: Seq<bool>|
                dirs.len() == data@.len() && watch_views(out.referenced_paths@) == watch_fold(
                    datum_views(data@),
                    dirs,
                )
        },
        r matches Err(e) ==> e@ == (BuildErrorView::Exit {
            cmd: cmd@,
            status: code,
            logs: log_fold(datum_views(data@)),
        }),
{
    let (paths, log_lines) = scan_reference_paths(&data);
    let success = match code {
        Some(c) => c == 0,
        None => false,
    };
    if !success {
        return Err(BuildError::exit(cmd, code, log_lines));
    }
    let mut products = products;
    let drv = match products.pop() {
        Some(p) => p,
        None => vstd::pervasive::unreached(),
    };
    Ok(InstantiateOutput { referenced_paths: paths, output: RootedDrv { gc_handle, path: drv } })
}

} // verus!
