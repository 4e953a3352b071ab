use lorri::builder::{
    assemble_instantiation, instantiate_command_args, parse_evaluation_line, BuildError,
    GcRootTempDir, LogDatum, LogLine, OutputPath, WatchPathBuf,
};
use lorri::watch::fold_reference_paths;

/// Parsing of `LogDatum`.
#[test]
fn evaluation_line_to_log_datum() {
    assert_eq!(
        parse_evaluation_line(b"evaluating file '/nix/store/zqxha3ax0w771jf25qdblakka83660gr-source/lib/systems/for-meta.nix'"),
        LogDatum::NixSourceFile(b"/nix/store/zqxha3ax0w771jf25qdblakka83660gr-source/lib/systems/for-meta.nix".to_vec())
    );

    assert_eq!(
        parse_evaluation_line(b"copied source '/nix/store/zqxha3ax0w771jf25qdblakka83660gr-source/pkgs/stdenv/generic/default-builder.sh' -> '/nix/store/9krlzvny65gdc8s7kpb6lkx8cd02c25b-default-builder.sh'"),
        LogDatum::CopiedSource(b"/nix/store/zqxha3ax0w771jf25qdblakka83660gr-source/pkgs/stdenv/generic/default-builder.sh".to_vec())
    );

    assert_eq!(
        parse_evaluation_line(b"trace: lorri read: '/home/grahamc/projects/grahamc/lorri/nix/nixpkgs.json'"),
        LogDatum::ReadRecursively(b"/home/grahamc/projects/grahamc/lorri/nix/nixpkgs.json".to_vec())
    );

    assert_eq!(
        parse_evaluation_line(
            b"downloading 'https://static.rust-lang.org/dist/channel-rust-stable.toml'..."
        ),
        LogDatum::Text(
            "downloading 'https://static.rust-lang.org/dist/channel-rust-stable.toml'..."
                .to_string()
        )
    );
}

/// The directory-listing marker is distinct from the recursive-read
/// marker, and its classification is reachable.
#[test]
fn readdir_marker_is_reachable() {
    assert_eq!(
        parse_evaluation_line(b"trace: lorri readdir: '/home/user/project'"),
        LogDatum::ReadDir(b"/home/user/project".to_vec())
    );
    assert_eq!(
        parse_evaluation_line(b"trace: lorri read: '/home/user/project'"),
        LogDatum::ReadRecursively(b"/home/user/project".to_vec())
    );
}

/// The greedy capture of a copy line extends to the last separator.
#[test]
fn copied_source_greedy_capture() {
    assert_eq!(
        parse_evaluation_line(b"copied source 'a' -> 'b' -> 'c'"),
        LogDatum::CopiedSource(b"a' -> 'b".to_vec())
    );
}

/// Lines that match no pattern, including empty ones, are plain text.
#[test]
fn unmatched_lines_are_text() {
    assert_eq!(parse_evaluation_line(b""), LogDatum::Text(String::new()));
    assert_eq!(
        parse_evaluation_line(b"evaluating file 'unterminated"),
        LogDatum::Text(String::from("evaluating file 'unterminated"))
    );
    assert_eq!(
        parse_evaluation_line(b"copied source 'no-separator'"),
        LogDatum::Text(String::from("copied source 'no-separator'"))
    );
}

/// Bytes that fail text decoding classify to the undecodable variant,
/// untouched, and never raise.
#[test]
fn non_utf8_line_is_kept_byte_exact() {
    let bad: Vec<u8> = vec![0xab, 0xbc, 0xcd, 0xde, 0xde, 0xef];
    assert_eq!(parse_evaluation_line(&bad), LogDatum::NonUtf(bad.clone()));
}

/// Classifying the same line twice yields identical data.
#[test]
fn classification_is_idempotent() {
    let lines: [&[u8]; 3] = [
        b"evaluating file '/a/b'",
        b"some random text",
        &[0xff, 0xfe, 0x00],
    ];
    for line in lines {
        assert_eq!(parse_evaluation_line(line), parse_evaluation_line(line));
    }
}

/// An evaluated directory is watched at its nested `default.nix`; plain
/// files and the other events keep their paths.
#[test]
fn fold_resolves_directories_to_default_nix() {
    let data = vec![
        LogDatum::NixSourceFile(b"/root/shell.nix".to_vec()),
        LogDatum::NixSourceFile(b"/root/foo".to_vec()),
        LogDatum::NixSourceFile(b"/root/foo/baz".to_vec()),
        LogDatum::CopiedSource(b"/root/dir".to_vec()),
        LogDatum::Text(String::from("building...")),
    ];
    let dirs = vec![false, true, false, false, false];
    let (paths, logs) = fold_reference_paths(&data, &dirs);
    assert_eq!(
        paths,
        vec![
            WatchPathBuf::Normal(b"/root/shell.nix".to_vec()),
            WatchPathBuf::Normal(b"/root/foo/default.nix".to_vec()),
            WatchPathBuf::Normal(b"/root/foo/baz".to_vec()),
            WatchPathBuf::Recursive(b"/root/dir".to_vec()),
        ]
    );
    assert!(!paths.contains(&WatchPathBuf::Normal(b"/root/foo".to_vec())));
    assert!(!paths.contains(&WatchPathBuf::Recursive(b"/root/foo".to_vec())));
    assert_eq!(logs, vec![b"building...".to_vec()]);
}

/// The copy event watches the source side recursively, never the
/// destination; the listing event watches without recursing.
#[test]
fn fold_watches_source_side_and_listings() {
    let data = vec![
        LogDatum::CopiedSource(b"/src/side".to_vec()),
        LogDatum::ReadRecursively(b"/read/me".to_vec()),
        LogDatum::ReadDir(b"/list/only".to_vec()),
    ];
    let dirs = vec![false, false, false];
    let (paths, logs) = fold_reference_paths(&data, &dirs);
    assert_eq!(
        paths,
        vec![
            WatchPathBuf::Recursive(b"/src/side".to_vec()),
            WatchPathBuf::Recursive(b"/read/me".to_vec()),
            WatchPathBuf::Normal(b"/list/only".to_vec()),
        ]
    );
    assert!(logs.is_empty());
}

/// Scanning asks the filesystem: an evaluated source path that names a
/// real directory is rewritten to its nested `default.nix`, while paths
/// that name no directory stand as reported.
#[test]
fn scan_resolves_real_directories() {
    let dir = tempfile::TempDir::new().unwrap();
    let dir_path = dir.path().display().to_string().into_bytes();
    let data = vec![
        LogDatum::NixSourceFile(dir_path.clone()),
        LogDatum::NixSourceFile(b"/nonexistent/shell.nix".to_vec()),
    ];
    let (paths, _logs) = lorri::watch::scan_reference_paths(&data);
    let mut expected_first = dir_path.clone();
    expected_first.extend_from_slice(b"/default.nix");
    assert_eq!(
        paths,
        vec![
            WatchPathBuf::Normal(expected_first),
            WatchPathBuf::Normal(b"/nonexistent/shell.nix".to_vec()),
        ]
    );
}

/// A successful exit assembles the single artifact with its root handle;
/// undecodable diagnostic output does not disturb it.
#[test]
fn assemble_success_keeps_artifact() {
    let handle = GcRootTempDir::from_tempdir(tempfile::TempDir::new().unwrap());
    let data = vec![
        LogDatum::Text(String::from("building")),
        LogDatum::NonUtf(vec![0xab, 0xbc]),
    ];
    let out = assemble_instantiation(
        String::from("nix-instantiate -vv"),
        Some(0),
        vec![b"/nix/store/abc-shell.drv".to_vec()],
        data,
        handle,
    )
    .expect("a zero exit with one product must assemble");
    assert_eq!(out.output.path, b"/nix/store/abc-shell.drv".to_vec());
    assert!(out.referenced_paths.is_empty());
}

/// A non-zero exit yields the exit error and nothing else, carrying the
/// unclassified lines as the user-facing log.
#[test]
fn assemble_nonzero_exit_fails() {
    let handle = GcRootTempDir::from_tempdir(tempfile::TempDir::new().unwrap());
    let data = vec![
        LogDatum::NixSourceFile(b"/root/shell.nix".to_vec()),
        LogDatum::Text(String::from("error: build failed")),
    ];
    let r = assemble_instantiation(
        String::from("nix-instantiate -vv"),
        Some(1),
        vec![],
        data,
        handle,
    );
    match r {
        Err(BuildError::Exit { cmd, status, logs }) => {
            assert_eq!(cmd, "nix-instantiate -vv");
            assert_eq!(status, Some(1));
            assert_eq!(logs, vec![LogLine(b"error: build failed".to_vec())]);
        }
        other => panic!("expected an exit error, got {:?}", other),
    }
}

/// A process killed by a signal has no exit code and still fails.
#[test]
fn assemble_signal_exit_fails() {
    let handle = GcRootTempDir::from_tempdir(tempfile::TempDir::new().unwrap());
    let r = assemble_instantiation(String::from("cmd"), None, vec![], vec![], handle);
    match r {
        Err(BuildError::Exit { status, logs, .. }) => {
            assert_eq!(status, None);
            assert!(logs.is_empty());
        }
        other => panic!("expected an exit error, got {:?}", other),
    }
}

/// The instantiate command line: verbose flag, extra options first, then
/// root flags, named arguments and the instrumentation script.
#[test]
fn instantiate_args_are_exact() {
    let args = instantiate_command_args(
        &vec![String::from("--builders"), String::from("ssh://host")],
        &String::from("/tmp/gc-root"),
        &String::from("/run/closure"),
        &String::from("/project/shell.nix"),
        &String::from("/cas/logged-evaluation.nix"),
    );
    assert_eq!(
        args,
        vec![
            String::from("-vv"),
            String::from("--builders"),
            String::from("ssh://host"),
            String::from("--add-root"),
            String::from("/tmp/gc-root/result"),
            String::from("--indirect"),
            String::from("--argstr"),
            String::from("runTimeClosure"),
            String::from("/run/closure"),
            String::from("--argstr"),
            String::from("src"),
            String::from("/project/shell.nix"),
            String::from("--"),
            String::from("/cas/logged-evaluation.nix"),
        ]
    );
}

/// Which errors the user can act on.
#[test]
fn actionable_errors() {
    assert!(!BuildError::io(String::from("disk on fire")).is_actionable());
    assert!(BuildError::spawn(String::from("cmd"), String::from("not found")).is_actionable());
    assert!(BuildError::exit(String::from("cmd"), Some(2), vec![]).is_actionable());
    assert!(BuildError::output(String::from("wrong count")).is_actionable());
}

/// Rendering of each error kind, byte for byte.
#[test]
fn error_messages_render_exactly() {
    assert_eq!(
        BuildError::io(String::from("boom")).message(),
        b"I/O error: boom".to_vec()
    );
    assert_eq!(
        BuildError::spawn(String::from("\"nix\""), String::from("no such file")).message(),
        b"failed to spawn Nix process. Is Nix installed and on the $PATH?\n$ \"nix\"\nno such file"
            .to_vec()
    );
    assert_eq!(
        BuildError::output(String::from("too many artifacts")).message(),
        b"too many artifacts".to_vec()
    );
}

/// The exit rendering prints the code, the command and every captured
/// line, and undecodable lines round-trip into it byte for byte.
#[test]
fn exit_message_round_trips_log_bytes() {
    let bad = vec![0xab, 0xbc, 0xcd];
    let e = BuildError::exit(
        String::from("nix-instantiate"),
        Some(101),
        vec![b"first line".to_vec(), bad.clone()],
    );
    let mut expected: Vec<u8> = Vec::new();
    expected.extend_from_slice(b"Nix process returned exit code 101.\n$ nix-instantiate\n");
    expected.extend_from_slice(b"first line\n");
    expected.extend_from_slice(&bad);
    expected.push(b'\n');
    assert_eq!(e.message(), expected);

    let unknown = BuildError::exit(String::from("cmd"), None, vec![]);
    assert_eq!(
        unknown.message(),
        b"Nix process returned exit code <unknown>.\n$ cmd\n".to_vec()
    );

    let negative = BuildError::exit(String::from("cmd"), Some(-7), vec![]);
    assert_eq!(
        negative.message(),
        b"Nix process returned exit code -7.\n$ cmd\n".to_vec()
    );
}

/// Log lines wrap plain byte vectors.
#[test]
fn log_line_from_bytes() {
    let l = LogLine::from(b"a line".to_vec());
    assert_eq!(l.0, b"a line".to_vec());
}

/// Mapping over the produced output path.
#[test]
fn output_path_map() {
    let p = OutputPath {
        shell_gc_root: String::from("/gc/root"),
    };
    let q = p.map(|s| s.len());
    assert_eq!(q.shell_gc_root, 8);
}
