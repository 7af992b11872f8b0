use aws_login::app::{Application, Context};
use aws_login::error::Error;
use aws_login::relay::{relay, RelayAction, RelayEvent, BUFFER_SIZE};
use aws_login::run::{settle, ExitStatus, ProcessOutput, Run};
use aws_login::sso::Subcommand;

fn context(profile: Option<&str>, region: Option<&str>) -> Application {
    Application::new(
        profile.map(|text| text.to_owned()),
        region.map(|text| text.to_owned()),
        Subcommand {},
    )
}

fn finished(code: Option<i32>, stdout: &str, stderr: &str) -> ProcessOutput {
    ProcessOutput {
        status: ExitStatus { code },
        stdout: stdout.as_bytes().to_vec(),
        stderr: stderr.as_bytes().to_vec(),
    }
}

/// Feeds `bytes` through a relay one buffer at a time, as a stream that then ends.
fn drain(bytes: &[u8], sink: &mut Vec<u8>) -> Result<(), Error> {
    for chunk in bytes.chunks(BUFFER_SIZE) {
        match relay(RelayEvent::Read(chunk.to_vec())) {
            RelayAction::Write(written) => sink.extend_from_slice(&written),
            RelayAction::Stop(outcome) => return outcome,
        }
    }
    match relay(RelayEvent::Read(Vec::new())) {
        RelayAction::Write(_) => panic!("the end of the stream was written"),
        RelayAction::Stop(outcome) => outcome,
    }
}

#[test]
fn argument_building() {
    let args = Run::new("test")
        .arg("arg1")
        .arg("arg2")
        .arg("arg3")
        .get_args()
        .to_owned();

    assert_eq!(args, vec!["arg1", "arg2", "arg3"]);
}

#[test]
fn aws_options_added() {
    let context = context(Some("profile"), Some("region"));

    let args = Run::new("aws")
        .with_aws_options(&context)
        .get_args()
        .to_owned();

    assert_eq!(args, vec!["--profile", "profile", "--region", "region"]);
}

#[test]
fn collect_output() {
    let result = Run::new("printf")
        .arg("Hello, %s!")
        .arg("world")
        .output(Ok(finished(Some(0), "Hello, world!", "")));

    assert!(result.is_ok());
    assert_eq!(result.unwrap(), "Hello, world!");
}

#[test]
fn pass_through_output() {
    let mut output = Vec::new();
    let mut error = Vec::new();
    let stdout_relay = drain(b"Hello, world!", &mut output);
    let stderr_relay = drain(b"", &mut error);

    let result = Run::new("printf")
        .arg("Hello, %s!")
        .arg("world")
        .pass_through(Ok(ExitStatus { code: Some(0) }), stderr_relay, stdout_relay);

    assert!(result.is_ok());
    assert_eq!(String::from_utf8(output).unwrap(), "Hello, world!");
    assert!(error.is_empty());
}

#[test]
fn new_run_has_program_and_no_arguments() {
    let run = Run::new("aws");
    assert_eq!(run.program(), "aws");
    assert!(run.get_args().is_empty());
}

#[test]
fn repeated_and_empty_arguments_are_kept() {
    let mut run = Run::new("test");
    run.arg("a").arg("").arg("a").arg("b");
    assert_eq!(run.get_args().to_owned(), vec!["a", "", "a", "b"]);
    assert_eq!(run.program(), "test");
}

#[test]
fn aws_options_stand_between_other_arguments() {
    let context = context(Some("P"), Some("R"));
    let mut run = Run::new("aws");
    run.arg("before").with_aws_options(&context).arg("after");
    assert_eq!(
        run.get_args().to_owned(),
        vec!["before", "--profile", "P", "--region", "R", "after"]
    );
}

#[test]
fn aws_options_absent_add_nothing() {
    let context = context(None, None);
    let mut run = Run::new("aws");
    run.arg("before").with_aws_options(&context).arg("after");
    assert_eq!(run.get_args().to_owned(), vec!["before", "after"]);
}

#[test]
fn aws_options_only_profile_or_only_region() {
    let only_profile = context(Some("dev"), None);
    let mut run = Run::new("aws");
    run.with_aws_options(&only_profile);
    assert_eq!(run.get_args().to_owned(), vec!["--profile", "dev"]);

    let only_region = context(None, Some("eu-west-1"));
    let mut run = Run::new("aws");
    run.with_aws_options(&only_region);
    assert_eq!(run.get_args().to_owned(), vec!["--region", "eu-west-1"]);
}

#[test]
fn context_reports_its_options() {
    let context = context(Some("dev"), None);
    assert_eq!(context.profile(), Some("dev"));
    assert_eq!(context.region(), None);
}

#[test]
fn capture_returns_stdout_exactly() {
    let result = Run::new("tool").output(Ok(finished(Some(0), "X", "ignored")));
    assert_eq!(result.unwrap(), "X");
}

#[test]
fn capture_failure_carries_code_and_stderr() {
    let error = Run::new("tool")
        .output(Ok(finished(Some(3), "out", "it broke\n")))
        .unwrap_err();
    assert_eq!(error.code, 3);
    assert_eq!(error.code(), 3);
    assert_eq!(error.message.as_deref(), Some("it broke\n"));
    assert!(error.context.is_empty());
}

#[test]
fn capture_without_exit_code_fails_with_one() {
    let error = Run::new("tool")
        .output(Ok(finished(None, "out", "killed")))
        .unwrap_err();
    assert_eq!(error.code, 1);
    assert_eq!(error.message.as_deref(), Some("killed"));
}

#[test]
fn capture_spawn_error_fails_with_one() {
    let error = Run::new("missing")
        .output(Err("No such file or directory (os error 2)".to_owned()))
        .unwrap_err();
    assert_eq!(error.code, 1);
    assert_eq!(
        error.message.as_deref(),
        Some("No such file or directory (os error 2)")
    );
    assert!(error.context.is_empty());
}

#[test]
fn capture_decodes_malformed_bytes_with_replacement() {
    let output = ProcessOutput {
        status: ExitStatus { code: Some(0) },
        stdout: vec![b'a', 0xff, b'b'],
        stderr: Vec::new(),
    };
    let text = Run::new("tool").output(Ok(output)).unwrap();
    assert_eq!(text, "a\u{fffd}b");

    let output = ProcessOutput {
        status: ExitStatus { code: Some(2) },
        stdout: Vec::new(),
        stderr: vec![0xc3, 0xa9, 0x80],
    };
    let error = Run::new("tool").output(Ok(output)).unwrap_err();
    assert_eq!(error.message.as_deref(), Some("\u{e9}\u{fffd}"));
}

#[test]
fn settle_picks_the_stream_by_status() {
    let ok = settle(ExitStatus { code: Some(0) }, "out".to_owned(), "err".to_owned());
    assert_eq!(ok.unwrap(), "out");
    let failed = settle(ExitStatus { code: Some(-7) }, "out".to_owned(), "err".to_owned());
    let error = failed.unwrap_err();
    assert_eq!(error.code, -7);
    assert_eq!(error.message.as_deref(), Some("err"));
}

#[test]
fn exit_status_success_and_code() {
    assert!(ExitStatus { code: Some(0) }.success());
    assert!(!ExitStatus { code: Some(1) }.success());
    assert!(!ExitStatus { code: None }.success());
    assert_eq!(ExitStatus { code: Some(42) }.code_or(1), 42);
    assert_eq!(ExitStatus { code: None }.code_or(1), 1);
}

#[test]
fn pass_through_failure_has_code_and_no_message() {
    let error = Run::new("tool")
        .pass_through(Ok(ExitStatus { code: Some(255) }), Ok(()), Ok(()))
        .unwrap_err();
    assert_eq!(error.code, 255);
    assert_eq!(error.message, None);
    assert!(error.context.is_empty());
}

#[test]
fn pass_through_without_exit_code_fails_with_one() {
    let error = Run::new("tool")
        .pass_through(Ok(ExitStatus { code: None }), Ok(()), Ok(()))
        .unwrap_err();
    assert_eq!(error.code, 1);
    assert_eq!(error.message, None);
}

#[test]
fn pass_through_wait_error_fails_with_one() {
    let error = Run::new("tool")
        .pass_through(Err("cannot spawn".to_owned()), Ok(()), Ok(()))
        .unwrap_err();
    assert_eq!(error.code, 1);
    assert_eq!(error.message.as_deref(), Some("cannot spawn"));
}

#[test]
fn pass_through_relay_failure_decides() {
    let stderr_failure = Error::new(1).with_message("stderr closed".to_owned());
    let stdout_failure = Error::new(1).with_message("stdout closed".to_owned());
    let error = Run::new("tool")
        .pass_through(
            Ok(ExitStatus { code: Some(0) }),
            Err(stderr_failure),
            Err(stdout_failure),
        )
        .unwrap_err();
    assert_eq!(error.message.as_deref(), Some("stderr closed"));

    let stdout_failure = Error::new(1).with_message("stdout closed".to_owned());
    let error = Run::new("tool")
        .pass_through(Ok(ExitStatus { code: Some(9) }), Ok(()), Err(stdout_failure))
        .unwrap_err();
    assert_eq!(error.code, 1);
    assert_eq!(error.message.as_deref(), Some("stdout closed"));
}

#[test]
fn relay_buffer_is_one_byte() {
    assert_eq!(BUFFER_SIZE, 1);
}

#[test]
fn relay_writes_what_was_read() {
    match relay(RelayEvent::Read(vec![7])) {
        RelayAction::Write(bytes) => assert_eq!(bytes, vec![7]),
        RelayAction::Stop(_) => panic!("a byte was dropped"),
    }
    match relay(RelayEvent::Read(vec![1, 2, 3])) {
        RelayAction::Write(bytes) => assert_eq!(bytes, vec![1, 2, 3]),
        RelayAction::Stop(_) => panic!("bytes were dropped"),
    }
}

#[test]
fn relay_stops_normally_at_end_of_stream() {
    assert!(matches!(
        relay(RelayEvent::Read(Vec::new())),
        RelayAction::Stop(Ok(()))
    ));
}

#[test]
fn relay_stops_with_failure_on_io_error() {
    match relay(RelayEvent::ReadFailed("broken pipe".to_owned())) {
        RelayAction::Stop(Err(error)) => {
            assert_eq!(error.code, 1);
            assert_eq!(error.message.as_deref(), Some("broken pipe"));
        }
        _ => panic!("a read error went unnoticed"),
    }
    match relay(RelayEvent::WriteFailed("sink full".to_owned())) {
        RelayAction::Stop(Err(error)) => {
            assert_eq!(error.code, 1);
            assert_eq!(error.message.as_deref(), Some("sink full"));
        }
        _ => panic!("a write error went unnoticed"),
    }
}

#[test]
fn relay_keeps_interleaved_streams_whole() {
    let mut output = Vec::new();
    let mut error = Vec::new();
    let stdout_relay = drain(b"out-1 out-2 out-3", &mut output);
    let stderr_relay = drain(b"err-1 err-2", &mut error);
    assert_eq!(output, b"out-1 out-2 out-3".to_vec());
    assert_eq!(error, b"err-1 err-2".to_vec());

    let ended_well = Run::new("tool").pass_through(
        Ok(ExitStatus { code: Some(0) }),
        stderr_relay,
        stdout_relay,
    );
    assert!(ended_well.is_ok());
    let ended_badly =
        Run::new("tool").pass_through(Ok(ExitStatus { code: Some(4) }), Ok(()), Ok(()));
    assert_eq!(ended_badly.unwrap_err().code, 4);
}

#[test]
fn error_builders() {
    let error = Error::new(5);
    assert_eq!(error.code, 5);
    assert_eq!(error.message, None);
    assert!(error.context.is_empty());
    let error = error
        .with_message("first".to_owned())
        .with_message("second".to_owned())
        .with_context("inner".to_owned())
        .with_context("outer".to_owned());
    assert_eq!(error.code, 5);
    assert_eq!(error.message.as_deref(), Some("second"));
    assert_eq!(error.context, vec!["inner", "outer"]);
}

#[test]
fn error_report_lists_context_then_message() {
    assert_eq!(Error::new(1).report(), "");
    assert_eq!(
        Error::new(1).with_message("denied".to_owned()).report(),
        "denied\n"
    );
    let error = Error::new(2)
        .with_message("denied".to_owned())
        .with_context("inner".to_owned())
        .with_context("outer".to_owned());
    assert_eq!(error.report(), "outer\ninner\ndenied\n");
    let error = Error::new(2).with_context("only".to_owned());
    assert_eq!(error.report(), "only\n");
}
