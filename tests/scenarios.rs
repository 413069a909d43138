use pipe_suite::case::get_tests;
use pipe_suite::env::TestEnv;
use pipe_suite::scenario::{
    Call, Dup, ReadFromWriteEnd, ReadWrite, ReadWriteEmpty, ScenarioError, WriteToReadEnd,
};
use pipe_suite::syscall::SyscallError;

const EBADF: i32 = 9;
const EAGAIN: i32 = 11;

fn is_pass(c: &Call) -> bool {
    matches!(c, Call::Done(Ok(())))
}

fn fail_msg(c: &Call) -> Option<&str> {
    match c {
        Call::Done(Err(ScenarioError::Assert(m))) => Some(m.as_str()),
        _ => None,
    }
}

fn syscall_err(c: &Call) -> Option<SyscallError> {
    match c {
        Call::Done(Err(ScenarioError::Syscall(e))) => Some(*e),
        _ => None,
    }
}

#[test]
fn registry_lists_seven_cases_in_order() {
    let tests = get_tests(0, 1, 2, 3, 4, 5, 6);
    let names: Vec<&str> = tests.iter().map(|t| t.name()).collect();
    assert_eq!(
        names,
        vec![
            "test_pipe",
            "test_read_write",
            "test_large_read_write",
            "test_read_write_empty",
            "test_dup",
            "test_write_to_read_end",
            "test_read_from_write_end"
        ]
    );
    for (i, t) in tests.iter().enumerate() {
        assert_eq!(*t.func(), i);
        assert!(t.passing(TestEnv::Libc));
        assert_eq!(t.passing(TestEnv::Shadow), i < 4);
    }
}

#[test]
fn read_write_round_trip() {
    let (mut s, first) = ReadWrite::new(3, 4);
    assert!(matches!(first, Call::Write { fd: 4, ref data } if data == &[1, 2, 3, 4]));
    let c = s.next(4, 0, &[]);
    assert!(matches!(c, Call::Read { fd: 3, len: 4 }));
    assert!(is_pass(&s.next(4, 0, &[1, 2, 3, 4])));
}

#[test]
fn read_write_short_write() {
    let (mut s, _) = ReadWrite::new(3, 4);
    assert_eq!(fail_msg(&s.next(3, 0, &[])), Some("Expected to write 4 bytes"));
}

#[test]
fn read_write_failed_write() {
    let (mut s, _) = ReadWrite::new(3, 4);
    assert_eq!(syscall_err(&s.next(-1, EAGAIN, &[])), Some(SyscallError::UnexpectedErrno(EAGAIN)));
}

#[test]
fn read_write_short_read_and_mismatch() {
    let (mut s, _) = ReadWrite::new(3, 4);
    s.next(4, 0, &[]);
    assert_eq!(fail_msg(&s.next(2, 0, &[1, 2, 0, 0])), Some("Expected to read 4 bytes"));
    let (mut s, _) = ReadWrite::new(3, 4);
    s.next(4, 0, &[]);
    assert_eq!(fail_msg(&s.next(4, 0, &[1, 2, 4, 3])), Some("Buffers differ"));
}

#[test]
fn empty_calls_are_no_ops() {
    let (mut s, first) = ReadWriteEmpty::new(3, 4);
    assert!(matches!(first, Call::Write { fd: 4, ref data } if data.is_empty()));
    assert!(matches!(s.next(0, 0), Call::Read { fd: 3, len: 0 }));
    assert!(matches!(s.next(0, 0), Call::Read { fd: 3, len: 0 }));
    assert!(is_pass(&s.next(0, 0)));
}

#[test]
fn empty_calls_reject_nonzero_counts() {
    let (mut s, _) = ReadWriteEmpty::new(3, 4);
    assert_eq!(fail_msg(&s.next(1, 0)), Some("Expected to write 0 bytes"));
    let (mut s, _) = ReadWriteEmpty::new(3, 4);
    s.next(0, 0);
    s.next(0, 0);
    assert_eq!(fail_msg(&s.next(2, 0)), Some("Expected to read 0 bytes"));
}

#[test]
fn dup_writes_through_both_descriptors() {
    let (mut s, first) = Dup::new(3, 4);
    assert!(matches!(first, Call::Dup { fd: 4 }));
    assert!(matches!(s.next(5, 0, &[]), Call::Write { fd: 4, .. }));
    assert_eq!(s.dup_fd(), Some(5));
    assert!(matches!(s.next(4, 0, &[]), Call::Write { fd: 5, .. }));
    assert!(matches!(s.next(4, 0, &[]), Call::Read { fd: 3, len: 8 }));
    assert!(is_pass(&s.next(8, 0, &[1, 2, 3, 4, 1, 2, 3, 4])));
}

#[test]
fn dup_reports_first_and_last_halves() {
    let run = |bytes: &[u8]| {
        let (mut s, _) = Dup::new(3, 4);
        s.next(5, 0, &[]);
        s.next(4, 0, &[]);
        s.next(4, 0, &[]);
        s.next(8, 0, bytes)
    };
    assert_eq!(fail_msg(&run(&[0, 2, 3, 4, 1, 2, 3, 4])), Some("First 4 bytes differ"));
    assert_eq!(fail_msg(&run(&[1, 2, 3, 4, 1, 2, 3, 0])), Some("Last 4 bytes differ"));
}

#[test]
fn dup_short_read_and_failed_dup() {
    let (mut s, _) = Dup::new(3, 4);
    s.next(5, 0, &[]);
    s.next(4, 0, &[]);
    s.next(4, 0, &[]);
    assert_eq!(fail_msg(&s.next(4, 0, &[0; 8])), Some("Expected to read 8 bytes"));
    let (mut s, _) = Dup::new(3, 4);
    assert_eq!(syscall_err(&s.next(-1, EBADF, &[])), Some(SyscallError::UnexpectedErrno(EBADF)));
    assert_eq!(s.dup_fd(), None);
}

#[test]
fn write_to_read_end_must_fail_with_ebadf() {
    let (s, first) = WriteToReadEnd::new(3, EBADF);
    assert!(matches!(first, Call::Write { fd: 3, .. }));
    assert!(is_pass(&s.next(-1, EBADF)));
    assert_eq!(syscall_err(&s.next(4, 0)), Some(SyscallError::UnexpectedSuccess(4)));
    assert_eq!(syscall_err(&s.next(-1, EAGAIN)), Some(SyscallError::UnexpectedErrno(EAGAIN)));
}

#[test]
fn read_from_write_end_must_fail_with_ebadf() {
    let (mut s, first) = ReadFromWriteEnd::new(4, EBADF);
    assert!(matches!(first, Call::Write { fd: 4, .. }));
    assert!(matches!(s.next(4, 0), Call::Read { fd: 4, len: 4 }));
    assert!(is_pass(&s.next(-1, EBADF)));
    let (mut s, _) = ReadFromWriteEnd::new(4, EBADF);
    s.next(4, 0);
    assert_eq!(syscall_err(&s.next(4, 0)), Some(SyscallError::UnexpectedSuccess(4)));
}
