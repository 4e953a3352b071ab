//! The failure taxonomy of a build attempt, and its rendering.
//!
//! Two infrastructure kinds (an OS-level I/O failure, a failure to spawn
//! the external process) and two input kinds (a non-zero exit, malformed
//! output) cover every way a build can fail.  Captured diagnostic lines
//! are carried byte for byte; rendering concatenates bytes, so nothing is
//! lost before the final display.

use crate::watch::byte_views;
use vstd::prelude::*;
use vstd::string::StrSliceExecFns;
use vstd::utf8::encode_utf8;

verus! {

/// A line from stderr log output, byte-exact even when it is not valid
/// text.
#[derive(Debug, Clone, PartialEq)]
pub struct LogLine(pub Vec<u8>);

impl View for LogLine {
    type V = Seq<u8>;

    open spec fn view(&self) -> Seq<u8> {
        self.0@
    }
}

impl From<Vec<u8>> for LogLine {
    fn from(bytes: Vec<u8>) -> (r: Self) {
        LogLine(bytes)
    }
}

impl vstd::std_specs::convert::FromSpecImpl<Vec<u8>> for LogLine {
    open spec fn obeys_from_spec() -> bool {
        true
    }

    open spec fn from_spec(bytes: Vec<u8>) -> Self {
        LogLine(bytes)
    }
}

/// The views of a sequence of log lines.
pub open spec fn line_views(ls: Seq<LogLine>) -> Seq<Seq<u8>> {
    ls.map_values(|l: LogLine| l@)
}

/// An error that can occur during a build.
#[derive(Debug, Clone)]
pub enum BuildError {
    /// A system-level IO error occurred during the build.
    Io {
        /// Error message of the underlying error.
        msg: String,
    },
    /// An error occurred while spawning the external process.  Usually
    /// this means that the relevant executable was not on the search path.
    Spawn {
        /// The command that failed, rendered as text.
        cmd: String,
        /// Error message of the underlying error.
        msg: String,
    },
    /// The external process returned with a non-zero exit code.
    Exit {
        /// The command that failed, rendered as text.
        cmd: String,
        /// The exit code of the command, absent when the process was
        /// terminated by a signal.  The smart constructor `exit` admits
        /// only genuinely non-successful codes.
        status: Option<i32>,
        /// Error logs of the failed process.
        logs: Vec<LogLine>,
    },
    /// There was something wrong with the output of the external command,
    /// for example the wrong number of produced artifacts.
    Output {
        /// Error message explaining the nature of the output error.
        msg: String,
    },
}

/// The mathematical value of a `BuildError`.
pub enum BuildErrorView {
    Io { msg: Seq<char> },
    Spawn { cmd: Seq<char>, msg: Seq<char> },
    Exit { cmd: Seq<char>, status: Option<i32>, logs: Seq<Seq<u8>> },
    Output { msg: Seq<char> },
}

impl View for BuildError {
    type V = BuildErrorView;

    open spec fn view(&self) -> BuildErrorView {
        match self {
            BuildError::Io { msg } => BuildErrorView::Io { msg: msg@ },
            BuildError::Spawn { cmd, msg } => BuildErrorView::Spawn { cmd: cmd@, msg: msg@ },
            BuildError::Exit { cmd, status, logs } => BuildErrorView::Exit {
                cmd: cmd@,
                status: *status,
                logs: line_views(logs@),
            },
            BuildError::Output { msg } => BuildErrorView::Output { msg: msg@ },
        }
    }
}

impl BuildError {
    /// Smart constructor for `BuildError::Io`.
    pub fn io(msg: String) -> (e: BuildError)
        ensures
            e@ == (BuildErrorView::Io { msg: msg@ }),
    {
        BuildError::Io { msg }
    }

    /// Smart constructor for `BuildError::Spawn`.
    pub fn spawn(cmd: String, msg: String) -> (e: BuildError)
        ensures
            e@ == (BuildErrorView::Spawn { cmd: cmd@, msg: msg@ }),
    {
        BuildError::Spawn { cmd, msg }
    }

    /// Smart constructor for `BuildError::Exit`.  A successful exit code
    /// is no exit error, so code zero is ruled out up front.
    pub fn exit(cmd: String, status: Option<i32>, logs: Vec<Vec<u8>>) -> (e: BuildError)
        requires
            status != Some(0i32),
        ensures
            e@ == (BuildErrorView::Exit { cmd: cmd@, status, logs: byte_views(logs@) }),
    {
        let mut lines: Vec<LogLine> = Vec::new();
        let mut i: usize = 0;
        while i < logs.len()
            invariant
                i <= logs@.len(),
                line_views(lines@) == byte_views(logs@.take(i as int)),
            decreases logs@.len() - i,
        {
            let b = crate::watch::copy_bytes(&logs[i]);
            let ghost bv = b@;
            let ghost old_lines = lines@;
            lines.push(LogLine(b));
            proof {
                assert(bv == logs@[i as int]@);
                assert(line_views(lines@) =~= line_views(old_lines).push(bv));
                assert(byte_views(logs@.take(i + 1)) =~= byte_views(logs@.take(i as int)).push(
                    logs@[i as int]@,
                ));
                assert(line_views(lines@) =~= byte_views(logs@.take(i + 1)));
            }
            i += 1;
        }
        proof {
            assert(logs@.take(logs@.len() as int) =~= logs@);
        }
        BuildError::Exit { cmd, status, logs: lines }
    }

    /// Smart constructor for `BuildError::Output`.
    pub fn output(msg: String) -> (e: BuildError)
        ensures
            e@ == (BuildErrorView::Output { msg: msg@ }),
    {
        BuildError::Output { msg }
    }

    /// Is there something the user can do about this error?
    pub fn is_actionable(&self) -> (b: bool)
        ensures
            b == !(self@ is Io),
    {
        match self {
            BuildError::Io { .. } => false,
            BuildError::Spawn { .. } => true,  // install the tool or fix the search path
            BuildError::Exit { .. } => true,  // fix the build expression
            BuildError::Output { .. } => true,  // fix the build expression
        }
    }

    /// Renders the error for display, as bytes: captured log lines pass
    /// through unchanged, so the rendering never loses data.  Lossy text
    /// conversion is left to the caller that actually prints.
    pub fn message(&self) -> (m: Vec<u8>)
        ensures
            m@ == message_bytes(self@),
    {
        let mut out: Vec<u8> = Vec::new();
        match self {
            BuildError::Io { msg } => {
                push_str_bytes(&mut out, "I/O error: ");
                push_string_bytes(&mut out, msg);
            }
            BuildError::Spawn { cmd, msg } => {
                push_str_bytes(
                    &mut out,
                    "failed to spawn Nix process. Is Nix installed and on the $PATH?\n$ ",
                );
                push_string_bytes(&mut out, cmd);
                push_str_bytes(&mut out, "\n");
                push_string_bytes(&mut out, msg);
            }
            BuildError::Exit { cmd, status, logs } => {
                push_str_bytes(&mut out, "Nix process returned exit code ");
                match status {
                    Some(c) => push_code_bytes(&mut out, *c),
                    None => push_str_bytes(&mut out, "<unknown>"),
                }
                push_str_bytes(&mut out, ".\n$ ");
                push_string_bytes(&mut out, cmd);
                push_str_bytes(&mut out, "\n");
                push_log_lines(&mut out, logs);
            }
            BuildError::Output { msg } => {
                push_string_bytes(&mut out, msg);
            }
        }
        out
    }
}

/// The rendering of a build error: fixed text around the command line,
/// the exit code and the captured log.
pub open spec fn message_bytes(e: BuildErrorView) -> Seq<u8> {
    match e {
        BuildErrorView::Io { msg } => encode_utf8("I/O error: "@) + encode_utf8(msg),
        BuildErrorView::Spawn { cmd, msg } => encode_utf8(
            "failed to spawn Nix process. Is Nix installed and on the $PATH?\n$ "@,
        ) + encode_utf8(cmd) + encode_utf8("\n"@) + encode_utf8(msg),
        BuildErrorView::Exit { cmd, status, logs } => encode_utf8(
            "Nix process returned exit code "@,
        ) + status_bytes(status) + encode_utf8(".\n$ "@) + encode_utf8(cmd) + encode_utf8("\n"@)
            + lines_bytes(logs),
        BuildErrorView::Output { msg } => encode_utf8(msg),
    }
}

/// The rendering of an optional exit code.
pub open spec fn status_bytes(status: Option<i32>) -> Seq<u8> {
    match status {
        Some(c) => code_bytes(c as int),
        None => encode_utf8("<unknown>"@),
    }
}

/// The decimal rendering of an exit code, with a sign when negative.
pub open spec fn code_bytes(c: int) -> Seq<u8> {
    if c < 0 {
        seq!['-' as u8] + dec_digits((-c) as nat)
    } else {
        dec_digits(c as nat)
    }
}

/// The decimal digits of a natural number, most significant first.
pub open spec fn dec_digits(n: nat) -> Seq<u8>
    decreases n,
{
    if n < 10 {
        seq![(('0' as u8) + n) as u8]
    } else {
        dec_digits(n / 10) + seq![(('0' as u8) + n % 10) as u8]
    }
}

/// The rendering of the captured log: every line byte for byte, each
/// followed by a newline.
pub open spec fn lines_bytes(logs: Seq<Seq<u8>>) -> Seq<u8>
    decreases logs.len(),
{
    if logs.len() == 0 {
        Seq::empty()
    } else {
        lines_bytes(logs.drop_last()) + logs.last() + seq!['\n' as u8]
    }
}

/// Each captured line stands somewhere in the rendered log, byte for
/// byte.
proof fn lemma_lines_bytes_contains(logs: Seq<Seq<u8>>, i: int)
    requires
        0 <= i < logs.len(),
    ensures
        exists|k: int|
            0 <= k && k + logs[i].len() <= lines_bytes(logs).len() && #[trigger] lines_bytes(
                logs,
            ).subrange(k, k + logs[i].len()) == logs[i],
    decreases logs.len(),
{
    if i == logs.len() - 1 {
        let k = lines_bytes(logs.drop_last()).len() as int;
        assert(lines_bytes(logs).subrange(k, k + logs[i].len()) =~= logs[i]);
    } else {
        lemma_lines_bytes_contains(logs.drop_last(), i);
        let k = choose|k: int|
            0 <= k && k + logs.drop_last()[i].len() <= lines_bytes(logs.drop_last()).len()
                && #[trigger] lines_bytes(logs.drop_last()).subrange(
                k,
                k + logs.drop_last()[i].len(),
            ) == logs.drop_last()[i];
        assert(lines_bytes(logs).subrange(k, k + logs[i].len()) =~= logs[i]);
    }
}

/// Every diagnostic line captured by an exit error survives into the
/// rendered message byte for byte, undecodable ones included: display
/// never loses what the process wrote.
pub proof fn lemma_exit_message_keeps_log_lines(e: BuildErrorView, i: int)
    requires
        e matches BuildErrorView::Exit { logs, .. } && 0 <= i < logs.len(),
    ensures
        ({
            let logs = e->Exit_logs;
            exists|k: int|
                0 <= k && k + logs[i].len() <= message_bytes(e).len() && #[trigger] message_bytes(
                    e,
                ).subrange(k, k + logs[i].len()) == logs[i]
        }),
{
    let logs = e->Exit_logs;
    let header = encode_utf8("Nix process returned exit code "@) + status_bytes(e->Exit_status)
        + encode_utf8(".\n$ "@) + encode_utf8(e->Exit_cmd) + encode_utf8("\n"@);
    assert(message_bytes(e) =~= header + lines_bytes(logs));
    lemma_lines_bytes_contains(logs, i);
    let k = choose|k: int|
        0 <= k && k + logs[i].len() <= lines_bytes(logs).len() && #[trigger] lines_bytes(
            logs,
        ).subrange(k, k + logs[i].len()) == logs[i];
    assert(message_bytes(e).subrange(header.len() + k, header.len() + k + logs[i].len())
        =~= logs[i]);
}

/// Appends the UTF-8 bytes of a string slice.
fn push_str_bytes(out: &mut Vec<u8>, s: &str)
    ensures
        final(out)@ == old(out)@ + encode_utf8(s@),
{
    let mut b = s.as_bytes_vec();
    out.append(&mut b);
}

/// Appends the UTF-8 bytes of a string.
fn push_string_bytes(out: &mut Vec<u8>, s: &String)
    ensures
        final(out)@ == old(out)@ + encode_utf8(s@),
{
    push_str_bytes(out, s.as_str());
}

/// Appends the decimal digits of a number.
fn push_digits(out: &mut Vec<u8>, n: u64)
    ensures
        final(out)@ == old(out)@ + dec_digits(n as nat),
    decreases n,
{
    if n < 10 {
        out.push('0' as u8 + n as u8);
    } else {
        push_digits(out, n / 10);
        out.push('0' as u8 + (n % 10) as u8);
        proof {
            assert(final(out)@ =~= old(out)@ + dec_digits(n as nat));
        }
    }
}

/// Appends the rendering of an exit code.
fn push_code_bytes(out: &mut Vec<u8>, c: i32)
    ensures
        final(out)@ == old(out)@ + code_bytes(c as int),
{
    let m: u64;
    if c < 0 {
        out.push('-' as u8);
        m = (-(c as i64)) as u64;
    } else {
        m = c as u64;
    }
    push_digits(out, m);
    proof {
        assert(final(out)@ =~= old(out)@ + code_bytes(c as int));
    }
}

/// Appends the rendering of the captured log lines.
fn push_log_lines(out: &mut Vec<u8>, logs: &Vec<LogLine>)
    ensures
        final(out)@ == old(out)@ + lines_bytes(line_views(logs@)),
{
    let mut i: usize = 0;
    while i < logs.len()
        invariant
            i <= logs@.len(),
            out@ == old(out)@ + lines_bytes(line_views(logs@).take(i as int)),
        decreases logs@.len() - i,
    {
        let mut b = crate::watch::copy_bytes(&logs[i].0);
        out.append(&mut b);
        out.push('\n' as u8);
        proof {
            assert(line_views(logs@).take(i + 1).drop_last() =~= line_views(logs@).take(i as int));
            assert(out@ =~= old(out)@ + lines_bytes(line_views(logs@).take(i + 1)));
        }
        i += 1;
    }
    proof {
        assert(line_views(logs@).take(logs@.len() as int) =~= line_views(logs@));
    }
}

} // verus!
