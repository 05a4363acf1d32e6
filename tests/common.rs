use bundle_exec::command::{command_line, trace_line};
use bundle_exec::copy::{
    check_dir_copy, check_file_copy, copy_custom_files, entry_copy, join_path, relative_path,
    CopyKind, CopyRefusal, CustomFile, EntryCopy,
};
use bundle_exec::drain::{DrainAction, Drainer, ReadEvent, Stream};
use bundle_exec::icon::{is_retina, stem_is_retina};
use bundle_exec::outcome::{assemble, spawn_failure, ExecError, ExitState};

fn line(s: &str) -> ReadEvent {
    ReadEvent::Line(s.to_string())
}

fn drained(stream: Stream, events: Vec<ReadEvent>) -> Drainer {
    let mut d = Drainer::new(stream);
    for e in events {
        d.step(e);
    }
    d
}

#[test]
fn retina_icon_paths() {
    assert!(!is_retina("data/icons/512x512.png"));
    assert!(is_retina("data/icons/512x512@2x.png"));
}

#[test]
fn retina_stems() {
    assert!(stem_is_retina("icon@2x"));
    assert!(!stem_is_retina("icon@3x"));
    assert!(!stem_is_retina("2x"));
    assert!(!stem_is_retina(""));
    assert!(!is_retina("icons/@2x/plain.png"));
    assert!(is_retina("a@2x"));
    assert!(!is_retina(""));
}

#[test]
fn drainer_captures_lines_with_newlines() {
    let d = drained(
        Stream::Stdout,
        vec![line("first\n"), line("second\n"), line("tail"), ReadEvent::EndOfStream],
    );
    assert!(d.is_finished());
    assert_eq!(d.into_captured(), b"first\nsecond\ntail".to_vec());
}

#[test]
fn drainer_logs_trimmed_line() {
    let mut d = Drainer::new(Stream::Stderr);
    match d.step(line("warning: slow  \r\n")) {
        DrainAction::Log(t) => assert_eq!(t, "warning: slow"),
        other => panic!("unexpected action {:?}", other),
    }
    assert_eq!(d.captured(), &b"warning: slow  \r\n".to_vec());
}

#[test]
fn drainer_ignores_transient_errors() {
    let mut d = Drainer::new(Stream::Stdout);
    assert!(matches!(d.step(line("a\n")), DrainAction::Log(_)));
    assert!(matches!(d.step(ReadEvent::TransientError), DrainAction::Continue));
    assert!(!d.is_finished());
    assert!(matches!(d.step(line("b\n")), DrainAction::Log(_)));
    assert!(matches!(d.step(ReadEvent::EndOfStream), DrainAction::Stop));
    assert_eq!(d.captured(), &b"a\nb\n".to_vec());
}

#[test]
fn drainer_ignores_events_after_end() {
    let mut d = drained(Stream::Stdout, vec![line("x\n"), ReadEvent::EndOfStream]);
    assert!(matches!(d.step(line("late\n")), DrainAction::Stop));
    assert_eq!(d.captured(), &b"x\n".to_vec());
}

#[test]
fn empty_stream_captures_nothing() {
    let d = drained(Stream::Stdout, vec![ReadEvent::EndOfStream]);
    assert!(d.captured().is_empty());
}

#[test]
fn stream_tags() {
    assert_eq!(Stream::Stdout.tag(), "stdout");
    assert_eq!(Stream::Stderr.tag(), "stderr");
    assert_eq!(Drainer::new(Stream::Stderr).stream(), Stream::Stderr);
}

#[test]
fn interleaved_streams_stay_apart() {
    let mut out = Drainer::new(Stream::Stdout);
    let mut err = Drainer::new(Stream::Stderr);
    out.step(line("o1\n"));
    err.step(line("e1\n"));
    out.step(line("o2\n"));
    err.step(ReadEvent::TransientError);
    err.step(line("e2\n"));
    out.step(ReadEvent::EndOfStream);
    err.step(ReadEvent::EndOfStream);
    let r = assemble("tool", ExitState { code: Some(0) }, out, err).expect("success");
    assert_eq!(r.stdout, b"o1\no2\n".to_vec());
    assert_eq!(r.stderr, b"e1\ne2\n".to_vec());
}

#[test]
fn large_stderr_only_is_captured_whole() {
    let mut events = Vec::new();
    let mut expected = Vec::new();
    for i in 0..2000 {
        let l = format!("{:0>60}\n", i);
        expected.extend_from_slice(l.as_bytes());
        events.push(ReadEvent::Line(l));
    }
    events.push(ReadEvent::EndOfStream);
    let err = drained(Stream::Stderr, events);
    let out = drained(Stream::Stdout, vec![ReadEvent::EndOfStream]);
    let r = assemble("noisy", ExitState { code: Some(0) }, out, err).expect("success");
    assert!(r.stderr.len() > 64 * 1024);
    assert_eq!(r.stderr, expected);
    assert!(r.stdout.is_empty());
}

#[test]
fn success_gives_captured_result() {
    let out = drained(Stream::Stdout, vec![line("hello\n"), ReadEvent::EndOfStream]);
    let err = drained(Stream::Stderr, vec![ReadEvent::EndOfStream]);
    let r = assemble("echo", ExitState { code: Some(0) }, out, err).expect("success");
    assert_eq!(r.status, ExitState { code: Some(0) });
    assert!(r.status.success());
    assert_eq!(r.stdout, b"hello\n".to_vec());
    assert!(r.stderr.is_empty());
}

#[test]
fn nonzero_exit_is_an_error_naming_the_command() {
    let out = drained(Stream::Stdout, vec![line("partial\n"), ReadEvent::EndOfStream]);
    let err = drained(Stream::Stderr, vec![line("boom\n"), ReadEvent::EndOfStream]);
    let r = assemble("signtool", ExitState { code: Some(2) }, out, err);
    match r {
        Err(e) => {
            assert_eq!(e.command(), "signtool");
            assert_eq!(e.message(), "failed to run signtool");
            match e {
                ExecError::Failed { output, .. } => {
                    assert_eq!(output.status.code, Some(2));
                    assert_eq!(output.stdout, b"partial\n".to_vec());
                    assert_eq!(output.stderr, b"boom\n".to_vec());
                }
                other => panic!("unexpected error {:?}", other),
            }
        }
        Ok(_) => panic!("a failed exit gave a success"),
    }
}

#[test]
fn signal_termination_is_no_success() {
    assert!(!ExitState { code: None }.success());
    let out = drained(Stream::Stdout, vec![ReadEvent::EndOfStream]);
    let err = drained(Stream::Stderr, vec![ReadEvent::EndOfStream]);
    assert!(assemble("killed", ExitState { code: None }, out, err).is_err());
}

#[test]
fn spawn_failure_names_the_command() {
    let e = spawn_failure("does-not-exist", "No such file or directory".to_string());
    assert_eq!(e.command(), "does-not-exist");
    assert_eq!(e.message(), "failed to spawn does-not-exist: No such file or directory");
    assert!(matches!(e, ExecError::Spawn { .. }));
}

#[test]
fn reruns_are_independent() {
    let run = || {
        let out = drained(Stream::Stdout, vec![line("same\n"), ReadEvent::EndOfStream]);
        let err = drained(Stream::Stderr, vec![ReadEvent::EndOfStream]);
        assemble("tool", ExitState { code: Some(0) }, out, err).expect("success")
    };
    let first = run();
    let second = run();
    assert_eq!(first.stdout, b"same\n".to_vec());
    assert_eq!(second.stdout, b"same\n".to_vec());
    assert!(Drainer::new(Stream::Stdout).captured().is_empty());
}

#[test]
fn trace_line_names_program_and_args() {
    let args = vec!["-c".to_string(), "--level".to_string(), "9".to_string()];
    assert_eq!(trace_line("xz", &args), "Command `xz -c --level 9`");
    assert_eq!(command_line("makensis", &Vec::new()), "makensis");
}

#[test]
fn package_paths_become_relative() {
    assert_eq!(relative_path("/usr/share/app"), "usr/share/app");
    assert_eq!(relative_path("//etc/x"), "etc/x");
    assert_eq!(relative_path("docs/readme"), "docs/readme");
    assert_eq!(relative_path("/"), "");
}

#[test]
fn joining_paths() {
    assert_eq!(join_path("data", "a/b"), "data/a/b");
    assert_eq!(join_path("data/", "a"), "data/a");
    assert_eq!(join_path("", "a"), "a");
    assert_eq!(join_path("data", ""), "data/");
    assert_eq!(join_path("data", "/etc/x"), "/etc/x");
}

#[test]
fn custom_files_are_laid_out_under_data_dir() {
    let files = vec![
        CustomFile {
            package_path: "/usr/lib/tool/conf.toml".to_string(),
            source: "conf/tool.toml".to_string(),
            source_is_file: true,
        },
        CustomFile {
            package_path: "share/assets".to_string(),
            source: "assets".to_string(),
            source_is_file: false,
        },
    ];
    let steps = copy_custom_files(&files, "/tmp/pkg/data");
    assert_eq!(steps.len(), 2);
    assert_eq!(steps[0].kind, CopyKind::File);
    assert_eq!(steps[0].from, "conf/tool.toml");
    assert_eq!(steps[0].to, "/tmp/pkg/data/usr/lib/tool/conf.toml");
    assert_eq!(steps[1].kind, CopyKind::Directory);
    assert_eq!(steps[1].from, "assets");
    assert_eq!(steps[1].to, "/tmp/pkg/data/share/assets");
    assert!(copy_custom_files(&Vec::new(), "d").is_empty());
}

#[test]
fn copy_checks() {
    assert_eq!(check_file_copy(false, false), Err(CopyRefusal::Missing));
    assert_eq!(check_file_copy(true, false), Err(CopyRefusal::NotAFile));
    assert_eq!(check_file_copy(true, true), Ok(()));
    assert_eq!(check_dir_copy(false, true, false), Err(CopyRefusal::Missing));
    assert_eq!(check_dir_copy(true, false, false), Err(CopyRefusal::NotADirectory));
    assert_eq!(check_dir_copy(true, true, true), Err(CopyRefusal::AlreadyExists));
    assert_eq!(check_dir_copy(true, true, false), Ok(()));
}

#[test]
fn walked_entries() {
    assert_eq!(entry_copy(true, true, false), EntryCopy::LinkToDirectory);
    assert_eq!(entry_copy(true, false, false), EntryCopy::LinkToFile);
    assert_eq!(entry_copy(false, false, true), EntryCopy::CreateDirectory);
    assert_eq!(entry_copy(false, false, false), EntryCopy::CopyContents);
}
