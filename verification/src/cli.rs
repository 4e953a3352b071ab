//! The command-line surface: the commands and options the program accepts,
//! and the parsing of human-friendly durations.
//!
//! The types here are bare data; the argument-parsing derives live with
//! the binary that actually reads the command line.

use vstd::prelude::*;
use vstd::string::{StrSliceExecFns, StringExecFns};

verus! {

/// Global arguments which set global program state.  Most arguments will
/// be to sub-commands.
#[derive(Debug)]
pub struct Arguments {
    /// Activate debug logging.  Multiple occurrences are accepted for
    /// backwards compatibility, but have no effect.
    pub verbosity: u8,
    /// Sub-command to execute.
    pub command: Command,
}

/// Verbosity levels the program supports.
#[derive(Copy, Clone, Debug)]
pub enum Verbosity {
    /// Default verbosity, print info and up.
    DefaultInfo,
    /// Debug verbosity, print all messages.
    Debug,
}

/// Sub-commands which the program can execute.
#[derive(Debug)]
pub enum Command {
    /// Emit shell script intended to be evaluated as part of direnv's
    /// `.envrc`.
    Direnv(DirenvOptions),
    /// Remove garbage collection roots that point to removed shell files.
    Gc(GcOptions),
    /// Show information about a project.
    Info(InfoOptions),
    /// Open a new project shell.
    Shell(ShellOptions),
    /// Build the project whenever an input file changes.
    Watch(WatchOptions),
    /// Start the multi-project daemon.
    Daemon(DaemonOptions),
    /// Upgrade the program.
    Upgrade(UpgradeTo),
    /// Write bootstrap files to the current directory to create a new
    /// project.
    Init,
    /// Internal commands, only used to experiment with unstable features.
    Internal {
        /// Sub-command to execute.
        command: Internal_,
    },
}

/// Options for the `direnv` subcommand.
#[derive(Debug)]
pub struct DirenvOptions {
    /// The shell file in the current directory to use.
    pub nix_file: String,
}

/// Options for the `info` subcommand.
#[derive(Debug)]
pub struct InfoOptions {
    /// The shell file in the current directory to use.  If this option is
    /// not given, the `shell.nix` of the current directory is used.
    pub nix_file: Option<String>,
}

/// Options for the `gc` subcommand.
#[derive(Debug)]
pub struct GcOptions {
    /// Machine readable output.
    pub json: bool,
    /// Subcommand for gc.
    pub action: GcSubcommand,
}

/// Subcommand for gc.
#[derive(Debug)]
pub enum GcSubcommand {
    /// Prints the gc roots the program created.
    Info,
    /// Removes the gc roots associated to projects whose shell file
    /// vanished.
    Rm {
        /// Also delete the root associated with these shell files.
        shell_file: Vec<String>,
        /// Delete the root of all projects.
        all: bool,
        /// Also delete the root of projects last built before this amount
        /// of time ago, in seconds.
        older_than: Option<u64>,
    },
}

/// Options for the `shell` subcommand.
#[derive(Debug)]
pub struct ShellOptions {
    /// The shell file in the current directory to use.
    pub nix_file: String,
    /// If true, load the environment from the cache.
    pub cached: bool,
}

/// Options for the `internal start-user-shell` subcommand.
#[derive(Debug)]
pub struct StartUserShellOptions_ {
    /// The path of the parent shell's binary.
    pub shell_path: String,
    /// The shell file used to instantiate the project.
    pub nix_file: String,
}

/// Options for the `watch` subcommand.
#[derive(Debug)]
pub struct WatchOptions {
    /// The shell file in the current directory to use.
    pub nix_file: String,
    /// Exit after the first build.
    pub once: bool,
}

/// Options for the `daemon` subcommand.
#[derive(Debug)]
pub struct DaemonOptions {
    /// Nix configuration options to add, parsed from a machine-readable
    /// string by the binary.
    pub extra_nix_options: Option<NixOptions>,
}

/// The nix options that can be passed on the command line.
#[derive(Debug)]
pub struct NixOptions {
    /// Build machines to hand builds to.
    pub builders: Option<Vec<String>>,
    /// Substituters to ask for already-built artifacts.
    pub substituters: Option<Vec<String>>,
}

/// Sub-commands for internal features.
#[derive(Debug)]
pub enum Internal_ {
    /// (internal) Used internally by the `shell` subcommand.
    StartUserShell_(StartUserShellOptions_),
    /// (plumbing) Tell the daemon to care about the current directory's
    /// project.
    Ping_(Ping_),
    /// (experimental) Ask the daemon to report build events as they occur.
    StreamEvents_(StreamEvents_),
}

/// Send a message with a project.
///
/// Pinging with a project tells the daemon that the project was recently
/// interacted with.
#[derive(Debug)]
pub struct Ping_ {
    /// The shell file to watch and build on changes.
    pub nix_file: String,
}

/// The kinds of build events a stream can report.
#[derive(Copy, Clone, Debug, PartialEq, Eq)]
pub enum EventKind {
    /// Only events that happen from now on.
    Live,
    /// A snapshot of the most recent event of every project.
    Snapshot,
    /// The snapshot, then live events.
    All,
}

/// Stream events from the daemon.
#[derive(Debug)]
pub struct StreamEvents_ {
    /// The kind of events to report.
    pub kind: EventKind,
}

/// A stub struct to represent what we want to upgrade to.
#[derive(Debug)]
pub struct UpgradeTo {
    /// Where to upgrade to.  If no subcommand is given, the rolling
    /// release is assumed.
    pub source: Option<UpgradeSource>,
}

/// Version-specifiers of different upgrade targets.
#[derive(Debug)]
pub enum UpgradeSource {
    /// Upgrade to the current rolling-release version, fetched and built
    /// locally.
    RollingRelease,
    /// Upgrade to the current version from the canon branch, fetched and
    /// built locally.
    Canon,
    /// Alias for `canon`.
    Master,
    /// Upgrade to the specified branch, fetched and built locally.
    Branch(BranchDest),
    /// Upgrade to a version in an arbitrary local directory.
    Local(LocalDest),
}

/// Install an arbitrary version from a local directory.
#[derive(Debug)]
pub struct LocalDest {
    /// The path to a local check out.
    pub path: String,
}

/// Install an arbitrary version from an upstream branch.
#[derive(Debug)]
pub struct BranchDest {
    /// The branch of the upstream repository.
    pub branch: String,
}

/// The number of seconds one unit of a duration stands for: days, months
/// of thirty days, years of 365 days.
pub open spec fn unit_secs(c: char) -> Option<u64> {
    if c == 'd' {
        Some(86400u64)
    } else if c == 'm' {
        Some(2592000u64)
    } else if c == 'y' {
        Some(31536000u64)
    } else {
        None
    }
}

/// The numeric value of one decimal digit character.
pub open spec fn digit_val(c: char) -> nat {
    ((c as u32) - 48) as nat
}

/// Whether a character is a decimal digit.
pub open spec fn is_digit(c: char) -> bool {
    48 <= (c as u32) <= 57
}

/// Whether every character of the sequence is a decimal digit.
pub open spec fn all_digits(s: Seq<char>) -> bool {
    forall|i: int| 0 <= i < s.len() ==> is_digit(s[i])
}

/// The number the digit characters denote, most significant first.
pub open spec fn digits_value(s: Seq<char>) -> nat
    recommends
        all_digits(s),
    decreases s.len(),
{
    if s.len() == 0 {
        0
    } else {
        digits_value(s.drop_last()) * 10 + digit_val(s.last())
    }
}

/// The digits of a number written the way the standard parser reads it:
/// one optional leading plus sign is allowed.
pub open spec fn stripped(s: Seq<char>) -> Seq<char> {
    if s.len() > 0 && s[0] == '+' {
        s.subrange(1, s.len() as int)
    } else {
        s
    }
}

/// Whether the sequence parses as an unsigned 64-bit number.
pub open spec fn parses_u64(s: Seq<char>) -> bool {
    &&& stripped(s).len() > 0
    &&& all_digits(stripped(s))
    &&& digits_value(stripped(s)) <= u64::MAX
}

/// The seconds a duration string denotes: a number followed by a unit.
pub open spec fn duration_secs(s: Seq<char>) -> Option<u64> {
    if s.len() == 0 {
        None
    } else {
        match unit_secs(s.last()) {
            None => None,
            Some(m) => {
                let body = s.drop_last();
                if parses_u64(body) && digits_value(stripped(body)) * m <= u64::MAX {
                    Some((digits_value(stripped(body)) * m) as u64)
                } else {
                    None
                }
            },
        }
    }
}

/// The complaint for a string without a valid unit suffix.
pub open spec fn bad_suffix_msg(s: Seq<char>) -> Seq<char> {
    "Invalid duration: «"@ + s + "» should end with d, m or y."@
}

/// The complaint for a string whose number part does not parse.
pub open spec fn bad_integer_msg(body: Seq<char>) -> Seq<char> {
    "Invalid duration: «"@ + body + "» is not an integer."@
}

/// The value grows, or stays, as more digits are read.
proof fn lemma_digits_value_monotonic(s: Seq<char>, k: int)
    requires
        0 <= k <= s.len(),
    ensures
        digits_value(s) >= digits_value(s.take(k)),
    decreases s.len() - k,
{
    if k < s.len() {
        assert(s.take(k + 1).drop_last() =~= s.take(k));
        assert(digits_value(s.take(k + 1)) == digits_value(s.take(k)) * 10 + digit_val(
            s.take(k + 1).last(),
        ));
        lemma_digits_value_monotonic(s, k + 1);
    } else {
        assert(s.take(k) =~= s);
    }
}

/// Parses an unsigned 64-bit number the way the standard parser does: an
/// optional plus sign, then at least one decimal digit, rejecting
/// overflow.
fn parse_u64_str(s: &str) -> (r: Option<u64>)
    ensures
        r matches Some(n) ==> parses_u64(s@) && n == digits_value(stripped(s@)),
        r is None ==> !parses_u64(s@),
{
    let n = s.unicode_len();
    let ghost body = stripped(s@);
    let mut i: usize = 0;
    if n > 0 && s.get_char(0) == '+' {
        i = 1;
    }
    let ghost start = i as int;
    proof {
        assert(body =~= s@.subrange(start, s@.len() as int));
    }
    if i >= n {
        // no digits at all
        return None;
    }
    let mut acc: u64 = 0;
    while i < n
        invariant
            0 <= start <= i as int <= n,
            n == s@.len(),
            body == stripped(s@),
            body == s@.subrange(start, s@.len() as int),
            all_digits(s@.subrange(start, i as int)),
            acc == digits_value(s@.subrange(start, i as int)),
        decreases n - i,
    {
        let c = s.get_char(i);
        let v = c as u32;
        if v < 48 || v > 57 {
            proof {
                assert(body[i - start] == s@[i as int]);
                assert(!all_digits(body));
            }
            return None;
        }
        let d = (v - 48) as u64;
        let ghost prefix = s@.subrange(start, i as int);
        let ghost prefix1 = s@.subrange(start, i + 1);
        proof {
            assert(prefix1.drop_last() =~= prefix);
            assert(digits_value(prefix1) == digits_value(prefix) * 10 + digit_val(s@[i as int]));
        }
        let shifted = match acc.checked_mul(10) {
            Some(t) => t,
            None => {
                proof {
                    lemma_overflow_means_no_parse(s@, start, i as int);
                }
                return None;
            },
        };
        acc = match shifted.checked_add(d) {
            Some(t) => t,
            None => {
                proof {
                    lemma_overflow_means_no_parse(s@, start, i as int);
                }
                return None;
            },
        };
        i += 1;
    }
    proof {
        assert(s@.subrange(start, i as int) =~= body);
    }
    Some(acc)
}

/// When one more digit no longer fits in 64 bits, the whole number part
/// cannot parse.
proof fn lemma_overflow_means_no_parse(s: Seq<char>, start: int, i: int)
    requires
        0 <= start <= i < s.len(),
        all_digits(s.subrange(start, i)),
        is_digit(s[i]),
        digits_value(s.subrange(start, i)) * 10 + digit_val(s[i]) > u64::MAX,
    ensures
        !(all_digits(s.subrange(start, s.len() as int)) && digits_value(
            s.subrange(start, s.len() as int),
        ) <= u64::MAX),
{
    let body = s.subrange(start, s.len() as int);
    if all_digits(body) {
        assert(body.take(i + 1 - start).drop_last() =~= body.take(i - start));
        assert(body.take(i - start) =~= s.subrange(start, i));
        assert(body.take(i + 1 - start).last() == s[i]);
        assert(digits_value(body.take(i + 1 - start)) == digits_value(s.subrange(start, i)) * 10
            + digit_val(s[i]));
        lemma_digits_value_monotonic(body, i + 1 - start);
    }
}

/// Parses a duration from a human-friendly string like `30d` or `2m`: a
/// number of days, thirty-day months or 365-day years, returned as
/// seconds.  A number whose seconds do not fit in 64 bits denotes no
/// duration.
pub fn human_friendly_duration(s: &str) -> (r: Result<u64, String>)
    ensures
        duration_secs(s@) matches Some(n) ==> (r matches Ok(v) && v == n),
        duration_secs(s@) is None ==> (r matches Err(m) && m@ == (if s@.len() > 0 && unit_secs(
            s@.last(),
        ) is Some {
            bad_integer_msg(s@.drop_last())
        } else {
            bad_suffix_msg(s@)
        })),
{
    let n = s.unicode_len();
    let mut multiplier: u64 = 0;
    let mut known_unit = false;
    if n > 0 {
        let c = s.get_char(n - 1);
        if c == 'd' {
            multiplier = 24 * 60 * 60;
            known_unit = true;
        } else if c == 'm' {
            multiplier = 30 * 24 * 60 * 60;
            known_unit = true;
        } else if c == 'y' {
            multiplier = 365 * 24 * 60 * 60;
            known_unit = true;
        }
    }
    if !known_unit {
        return Err(
            String::from_str("Invalid duration: «").concat(s).concat(
                "» should end with d, m or y.",
            ),
        );
    }
    let integer_part = s.substring_char(0, n - 1);
    proof {
        assert(integer_part@ =~= s@.drop_last());
    }
    match parse_u64_str(integer_part) {
        Some(number) => match number.checked_mul(multiplier) {
            Some(seconds) => Ok(seconds),
            None => Err(
                String::from_str("Invalid duration: «").concat(integer_part).concat(
                    "» is not an integer.",
                ),
            ),
        },
        None => Err(
            String::from_str("Invalid duration: «").concat(integer_part).concat(
                "» is not an integer.",
            ),
        ),
    }
}

} // verus!
