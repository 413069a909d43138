use pipe_suite::case::{filter_tests, ShadowTest};
use pipe_suite::checks::{bytes_equal, result_assert, result_assert_bytes_eq, result_assert_eq};
use pipe_suite::env::{EnvSet, TestEnv};
use pipe_suite::runner::{run_tests, Runner, Step};
use pipe_suite::scope::run_and_close_fds;
use pipe_suite::syscall::{check_system_call, contains_code, SyscallError};
use std::cell::RefCell;

const EBADF: i32 = 9;
const EAGAIN: i32 = 11;

type Body = fn() -> Result<(), String>;

fn pass() -> Result<(), String> {
    Ok(())
}

fn fail_a() -> Result<(), String> {
    Err("a broke".to_string())
}

fn fail_b() -> Result<(), String> {
    Err("b broke".to_string())
}

fn both() -> EnvSet {
    EnvSet::of(&[TestEnv::Libc, TestEnv::Shadow])
}

fn libc_only() -> EnvSet {
    EnvSet::of(&[TestEnv::Libc])
}

fn registry() -> Vec<ShadowTest<Body>> {
    vec![
        ShadowTest::new("one", pass as Body, both()),
        ShadowTest::new("two", pass as Body, libc_only()),
        ShadowTest::new("three", pass as Body, EnvSet::of(&[TestEnv::Shadow])),
        ShadowTest::new("four", pass as Body, EnvSet::empty()),
        ShadowTest::new("five", pass as Body, both()),
    ]
}

fn names(tests: &[ShadowTest<Body>]) -> Vec<String> {
    tests.iter().map(|t| t.name().to_string()).collect()
}

#[test]
fn env_set_membership() {
    let s = libc_only();
    assert!(s.contains(TestEnv::Libc));
    assert!(!s.contains(TestEnv::Shadow));
    let mut e = EnvSet::empty();
    assert!(!e.contains(TestEnv::Libc));
    e.insert(TestEnv::Shadow);
    assert!(e.contains(TestEnv::Shadow));
    assert!(!e.contains(TestEnv::Libc));
    assert_eq!(EnvSet::of(&[TestEnv::Shadow, TestEnv::Shadow]), EnvSet::of(&[TestEnv::Shadow]));
}

#[test]
fn passing_follows_the_set() {
    let t = ShadowTest::new("test_dup", pass as Body, libc_only());
    assert_eq!(t.name(), "test_dup");
    assert!(t.passing(TestEnv::Libc));
    assert!(!t.passing(TestEnv::Shadow));
}

#[test]
fn filter_none_keeps_all_in_order() {
    let kept = filter_tests(registry(), false, false);
    assert_eq!(names(&kept), vec!["one", "two", "three", "four", "five"]);
}

#[test]
fn filter_shadow_is_stable() {
    let kept = filter_tests(registry(), true, false);
    assert_eq!(names(&kept), vec!["one", "three", "five"]);
}

#[test]
fn filter_libc_is_stable() {
    let kept = filter_tests(registry(), false, true);
    assert_eq!(names(&kept), vec!["one", "two", "five"]);
}

#[test]
fn filters_compose_to_intersection() {
    let both_at_once = filter_tests(registry(), true, true);
    let one_then_other = filter_tests(filter_tests(registry(), true, false), false, true);
    assert_eq!(names(&both_at_once), vec!["one", "five"]);
    assert_eq!(names(&one_then_other), names(&both_at_once));
}

#[test]
fn filter_of_empty_list() {
    let kept = filter_tests(Vec::<ShadowTest<Body>>::new(), true, true);
    assert!(kept.is_empty());
}

#[test]
fn checker_success_with_empty_list() {
    assert_eq!(check_system_call(4, 0, &[]), Ok(4));
    assert_eq!(check_system_call(0, 0, &[]), Ok(0));
}

#[test]
fn checker_failure_with_empty_list() {
    assert_eq!(check_system_call(-1, EBADF, &[]), Err(SyscallError::UnexpectedErrno(EBADF)));
}

#[test]
fn checker_allowed_failure() {
    assert_eq!(check_system_call(-1, EBADF, &[EBADF]), Ok(-1));
    assert_eq!(check_system_call(-1, EBADF, &[EAGAIN, EBADF]), Ok(-1));
}

#[test]
fn checker_other_failure() {
    assert_eq!(check_system_call(-1, EAGAIN, &[EBADF]), Err(SyscallError::UnexpectedErrno(EAGAIN)));
}

#[test]
fn checker_unexpected_success() {
    assert_eq!(check_system_call(4, 0, &[EBADF]), Err(SyscallError::UnexpectedSuccess(4)));
}

#[test]
fn contains_code_finds_members() {
    assert!(contains_code(&[1, 9, 11], 9));
    assert!(!contains_code(&[1, 11], 9));
    assert!(!contains_code(&[], 9));
}

#[test]
fn assertions_carry_their_message() {
    assert_eq!(result_assert(true, "x"), Ok(()));
    assert_eq!(result_assert(false, "fds[0] not set"), Err("fds[0] not set".to_string()));
    assert_eq!(result_assert_eq(4, 4, "Expected to write 4 bytes"), Ok(()));
    assert_eq!(
        result_assert_eq(3, 4, "Expected to write 4 bytes"),
        Err("Expected to write 4 bytes".to_string())
    );
    assert_eq!(result_assert_bytes_eq(&[1, 2, 3, 4], &[1, 2, 3, 4], "Buffers differ"), Ok(()));
    assert_eq!(
        result_assert_bytes_eq(&[1, 2, 3, 4], &[1, 2, 4, 3], "Buffers differ"),
        Err("Buffers differ".to_string())
    );
}

#[test]
fn bytes_equal_compares_length_and_content() {
    assert!(bytes_equal(&[], &[]));
    assert!(bytes_equal(&[1, 2], &[1, 2]));
    assert!(!bytes_equal(&[1, 2], &[1, 2, 3]));
    assert!(!bytes_equal(&[1, 2], &[2, 1]));
}

#[test]
fn run_all_passing() {
    assert!(run_tests(&registry(), false).is_ok());
    assert!(run_tests(&registry(), true).is_ok());
}

#[test]
fn run_stops_at_first_failure() {
    let tests = vec![
        ShadowTest::new("ok", pass as Body, both()),
        ShadowTest::new("a", fail_a as Body, both()),
        ShadowTest::new("b", fail_b as Body, both()),
    ];
    let failures = run_tests(&tests, false).unwrap_err();
    assert_eq!(failures.len(), 1);
    assert_eq!(failures[0].name, "a");
    assert_eq!(failures[0].message, "a broke");
}

#[test]
fn run_summarize_collects_all_failures() {
    let tests = vec![
        ShadowTest::new("a", fail_a as Body, both()),
        ShadowTest::new("ok", pass as Body, both()),
        ShadowTest::new("b", fail_b as Body, both()),
    ];
    let failures = run_tests(&tests, true).unwrap_err();
    assert_eq!(failures.len(), 2);
    assert_eq!((failures[0].name.as_str(), failures[0].message.as_str()), ("a", "a broke"));
    assert_eq!((failures[1].name.as_str(), failures[1].message.as_str()), ("b", "b broke"));
}

#[test]
fn run_of_no_cases_succeeds() {
    assert!(run_tests(&Vec::<ShadowTest<Body>>::new(), false).is_ok());
}

#[test]
fn runner_steps() {
    let mut r = Runner::new(true);
    assert_eq!(r.record("x".to_string(), Ok(())), Step::Continue);
    assert_eq!(r.record("y".to_string(), Err("bad".to_string())), Step::Continue);
    let failures = r.finish().unwrap_err();
    assert_eq!(failures.len(), 1);
    assert_eq!(failures[0].name, "y");

    let mut r = Runner::new(false);
    assert_eq!(r.record("x".to_string(), Ok(())), Step::Continue);
    assert_eq!(r.record("y".to_string(), Err("bad".to_string())), Step::Abort);
    assert!(r.finish().is_err());

    assert!(Runner::new(false).finish().is_ok());
}

#[test]
fn guard_closes_every_fd_on_success() {
    let closed = RefCell::new(Vec::new());
    let r: Result<(), String> = run_and_close_fds(&[5, 4], || Ok(()), |fd| {
        closed.borrow_mut().push(fd);
        0
    });
    assert_eq!(r, Ok(()));
    let mut c = closed.into_inner();
    c.sort();
    assert_eq!(c, vec![4, 5]);
}

#[test]
fn guard_closes_every_fd_on_failure_and_ignores_close_errors() {
    let closed = RefCell::new(Vec::new());
    let r: Result<(), String> = run_and_close_fds(&[7, 8, 9], || Err("Buffers differ".to_string()), |fd| {
        closed.borrow_mut().push(fd);
        -1
    });
    assert_eq!(r, Err("Buffers differ".to_string()));
    let mut c = closed.into_inner();
    c.sort();
    assert_eq!(c, vec![7, 8, 9]);
}

#[test]
fn guard_nests() {
    let closed = RefCell::new(Vec::new());
    let close = |fd: i32| {
        closed.borrow_mut().push(fd);
        0
    };
    let r: Result<i32, String> = run_and_close_fds(&[3, 4], || {
        let inner = run_and_close_fds(&[6], || Ok(6), close);
        assert_eq!(closed.borrow().as_slice(), &[6]);
        inner
    }, close);
    assert_eq!(r, Ok(6));
    let c = closed.into_inner();
    assert_eq!(c.len(), 3);
    assert_eq!(c[0], 6);
}
