use agforge::exec::{CommandOutput, ExecImpl};
use agforge::platform::{platform, PlatformImpl};
use agforge::request::{RequestImpl, Response};

#[test]
fn output_keeps_exit_code_and_text() {
    let out = CommandOutput::from_process_output(Some(0), b"hello\n", b"");
    assert_eq!(out.status, 0);
    assert_eq!(out.stdout, "hello\n");
    assert_eq!(out.stderr, "");
}

#[test]
fn output_without_exit_code_reports_minus_one() {
    let out = CommandOutput::from_process_output(None, b"", b"killed");
    assert_eq!(out.status, -1);
    assert_eq!(out.stderr, "killed");
}

#[test]
fn output_replaces_invalid_utf8() {
    let out = CommandOutput::from_process_output(Some(2), &[b'a', 0xff, b'b'], "ü".as_bytes());
    assert_eq!(out.status, 2);
    assert_eq!(out.stdout, "a\u{FFFD}b");
    assert_eq!(out.stderr, "ü");
}

#[test]
fn platform_handles_are_made() {
    let _p: PlatformImpl = platform();
    let _q = PlatformImpl::new();
    let _e = ExecImpl::new();
    let _r = RequestImpl;
    let resp = Response { status: 200, body: "ok".to_string() };
    assert_eq!(resp.clone().status, 200);
}
