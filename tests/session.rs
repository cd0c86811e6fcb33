use matiaos::session::{Session, SessionState};

fn echo_session() -> Session {
    let mut s = Session::new();
    let out = s.process_serial(&[3, 3, 3]);
    assert!(out.start_transfer);
    s.finish_transfer();
    s
}

#[test]
fn new_session_waits_for_loader() {
    let s = Session::new();
    assert_eq!(s.state, SessionState::WaitingForLoader);
    assert_eq!(s.num_breaks, 0);
    assert!(!s.ctrl_pressed);
}

#[test]
fn serial_is_mirrored_with_crlf() {
    let mut s = Session::new();
    let out = s.process_serial(b"hi\nthere\n");
    assert_eq!(out.terminal, b"hi\r\nthere\r\n".to_vec());
    assert!(!out.start_transfer);
}

#[test]
fn trigger_split_one_then_two() {
    let mut s = Session::new();
    let first = s.process_serial(b"boot\x03");
    assert!(!first.start_transfer);
    assert_eq!(s.state, SessionState::WaitingForLoader);
    assert_eq!(s.num_breaks, 1);
    let second = s.process_serial(b"\x03\x03");
    assert!(second.start_transfer);
    assert_eq!(s.state, SessionState::SendingKernel);
    assert_eq!(s.num_breaks, 0);
}

#[test]
fn trigger_split_over_three_reads() {
    let mut s = Session::new();
    assert!(!s.process_serial(&[3]).start_transfer);
    assert!(!s.process_serial(b"text").start_transfer);
    assert!(!s.process_serial(&[3]).start_transfer);
    assert!(s.process_serial(&[3]).start_transfer);
}

#[test]
fn trigger_needs_exactly_three() {
    let mut s = Session::new();
    assert!(!s.process_serial(&[3, 3]).start_transfer);
    assert!(!s.process_serial(&[3, 3]).start_transfer);
    assert_eq!(s.num_breaks, 4);
    assert_eq!(s.state, SessionState::WaitingForLoader);
}

#[test]
fn trigger_in_echo_mode_is_ignored() {
    let mut s = echo_session();
    let out = s.process_serial(&[3, 3, 3]);
    assert!(!out.start_transfer);
    assert_eq!(s.state, SessionState::EchoMode);
    assert_eq!(out.terminal, vec![3, 3, 3]);
}

#[test]
fn stdin_refused_while_waiting() {
    let mut s = Session::new();
    for input in [&b"hello\r"[..], &[1, b'x'][..], &[0xff; 64][..], &b""[..]] {
        let out = s.process_stdin(input);
        assert!(!out.accepted);
        assert!(out.to_serial.is_empty());
        assert!(!out.exit);
        assert_eq!(s.state, SessionState::WaitingForLoader);
    }
}

#[test]
fn stdin_refused_while_sending() {
    let mut s = Session::new();
    s.process_serial(&[3, 3, 3]);
    let out = s.process_stdin(b"abc");
    assert!(!out.accepted);
    assert!(out.to_serial.is_empty());
}

#[test]
fn control_then_x_exits() {
    let mut s = echo_session();
    let out = s.process_stdin(&[0x01, b'x']);
    assert!(out.accepted);
    assert!(out.exit);
    assert!(out.to_serial.is_empty());
}

#[test]
fn x_alone_is_forwarded() {
    let mut s = echo_session();
    let out = s.process_stdin(b"x");
    assert!(out.accepted);
    assert!(!out.exit);
    assert_eq!(out.to_serial, b"x".to_vec());
}

#[test]
fn control_then_x_across_reads_exits() {
    let mut s = echo_session();
    let first = s.process_stdin(&[0x01]);
    assert!(!first.exit);
    assert!(first.to_serial.is_empty());
    assert!(s.ctrl_pressed);
    assert!(s.process_stdin(b"x").exit);
}

#[test]
fn other_key_disarms_control() {
    let mut s = echo_session();
    let out = s.process_stdin(&[0x01, b'a', b'x']);
    assert!(!out.exit);
    assert_eq!(out.to_serial, b"ax".to_vec());
    assert!(!s.ctrl_pressed);
}

#[test]
fn carriage_return_becomes_newline() {
    let mut s = echo_session();
    let out = s.process_stdin(b"ls\r");
    assert_eq!(out.to_serial, b"ls\n".to_vec());
    assert!(!out.to_serial.contains(&b'\r'));
}

#[test]
fn bytes_after_exit_are_dropped() {
    let mut s = echo_session();
    let out = s.process_stdin(&[b'a', 0x01, b'x', b'b']);
    assert!(out.exit);
    assert_eq!(out.to_serial, b"a".to_vec());
}
