//! The capture protocol against a live bash process: the library frames the
//! commands and scans the output stream; only the byte shuffling between the
//! process and the scanner happens here.

use std::io::{Read, Write};
use std::time::{Duration, Instant};

use subprocess::{ExitStatus, Popen, PopenConfig, Redirection};
use watch_rs::capture::{find_marker, frame_command, OutputScanner};
use watch_rs::sentinel::SentinelToken;

fn spawn_shell() -> Popen {
    Popen::create(
        &["/bin/bash"],
        PopenConfig {
            stdout: Redirection::Pipe,
            stderr: Redirection::Merge,
            stdin: Redirection::Pipe,
            ..Default::default()
        },
    )
    .expect("bash spawns")
}

fn exec_blocking(shell: &mut Popen, out: &mut impl Read, scanner: &mut OutputScanner, cmd: &[u8], token: &SentinelToken) -> Vec<u8> {
    let framed = frame_command(cmd, token);
    let stdin = shell.stdin.as_mut().expect("stdin pipe");
    stdin.write_all(&framed).expect("command written");
    stdin.flush().expect("command flushed");
    loop {
        if let Some(cap) = scanner.try_capture() {
            return cap;
        }
        let mut buf = [0u8; 256];
        let n = out.read(&mut buf).expect("stream readable");
        assert!(n > 0, "stream closed before the sentinel appeared");
        scanner.push_chunk(&buf[..n]);
    }
}

#[test]
fn live_shell_echo_is_captured_exactly() {
    let mut shell = spawn_shell();
    let token = SentinelToken::generate();
    let mut scanner = OutputScanner::new(&token);
    let mut out = shell.stdout.take().expect("stdout pipe");

    let cap = exec_blocking(&mut shell, &mut out, &mut scanner, b"echo hi", &token);
    assert_eq!(cap, b"hi\n".to_vec());
    assert_eq!(find_marker(&cap, &token.bytes), None);

    shell.kill().expect("killable");
}

#[test]
fn live_shell_scopes_output_to_the_latest_command() {
    let mut shell = spawn_shell();
    let token = SentinelToken::generate();
    let mut scanner = OutputScanner::new(&token);
    let mut out = shell.stdout.take().expect("stdout pipe");

    // shell state persists across invocations of the same session
    let cap = exec_blocking(&mut shell, &mut out, &mut scanner, b"export GREETING=bonjour", &token);
    assert_eq!(cap, Vec::<u8>::new());
    let cap = exec_blocking(&mut shell, &mut out, &mut scanner, b"echo one; echo $GREETING", &token);
    assert_eq!(cap, b"one\nbonjour\n".to_vec());
    let cap = exec_blocking(&mut shell, &mut out, &mut scanner, b"echo two", &token);
    assert_eq!(cap, b"two\n".to_vec());

    shell.kill().expect("killable");
}

#[test]
fn hung_command_produces_no_capture_and_shell_dies_on_kill() {
    let mut shell = spawn_shell();
    let token = SentinelToken::generate();
    let mut scanner = OutputScanner::new(&token);
    let out = shell.stdout.take().expect("stdout pipe");
    let mut reader = rexpect::reader::NBReader::new(out, None);

    let framed = frame_command(b"sleep 30", &token);
    let stdin = shell.stdin.as_mut().expect("stdin pipe");
    stdin.write_all(&framed).expect("command written");
    stdin.flush().expect("command flushed");

    let deadline = Instant::now() + Duration::from_millis(400);
    let mut captured: Option<Vec<u8>> = None;
    while Instant::now() < deadline {
        while let Some(c) = reader.try_read() {
            scanner.push_chunk(&[c as u8]);
        }
        if let Some(cap) = scanner.try_capture() {
            captured = Some(cap);
            break;
        }
    }
    assert!(captured.is_none(), "a hung command must not produce a capture");

    shell.kill().expect("killable");
    let status = shell.wait().expect("waitable");
    assert!(matches!(status, ExitStatus::Signaled(_)), "shell was killed");
}
