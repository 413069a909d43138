use vstd::prelude::*;

verus! {

/// Why a checked system call did not meet its caller's expectation.
#[derive(Clone, Copy, Debug, PartialEq, Eq, Structural)]
pub enum SyscallError {
    /// The call failed with an error code that the allow-list does not hold.
    UnexpectedErrno(i32),
    /// The allow-list asked for a failure, and the call returned this value instead.
    UnexpectedSuccess(i64),
}

/// A raw return value signals failure when it is negative.
pub open spec fn is_failure(rv: i64) -> bool {
    rv < 0
}

/// What checking a call that returned `rv`, with `errno` as the thread's last
/// error code, yields against the allow-list `expected`.
///
/// An empty allow-list asks for success. A non-empty one asks for a failure
/// whose code it holds; the raw result is then handed back.
pub open spec fn check_outcome(rv: i64, errno: i32, expected: Seq<i32>) -> Result<i64, SyscallError> {
    if expected.len() == 0 {
        if is_failure(rv) {
            Err(SyscallError::UnexpectedErrno(errno))
        } else {
            Ok(rv)
        }
    } else if !is_failure(rv) {
        Err(SyscallError::UnexpectedSuccess(rv))
    } else if expected.contains(errno) {
        Ok(rv)
    } else {
        Err(SyscallError::UnexpectedErrno(errno))
    }
}

/// Whether `code` occurs in `codes`.
pub fn contains_code(codes: &[i32], code: i32) -> (r: bool)
    ensures
        r == codes@.contains(code),
{
    let mut i: usize = 0;
    while i < codes.len()
        invariant
            i <= codes@.len(),
            forall|k: int| 0 <= k < i ==> codes@[k] != code,
        decreases codes@.len() - i,
    {
        if codes[i] == code {
            assert(codes@[i as int] == code);
            return true;
        }
        i = i + 1;
    }
    false
}

/// Checks the result of one system call: `rv` is what it returned and `errno`
/// the thread's error code read right after it. The call itself is made by
/// the caller, exactly once.
pub fn check_system_call(rv: i64, errno: i32, expected: &[i32]) -> (r: Result<i64, SyscallError>)
    ensures
        r == check_outcome(rv, errno, expected@),
{
    if expected.len() == 0 {
        if rv < 0 {
            Err(SyscallError::UnexpectedErrno(errno))
        } else {
            Ok(rv)
        }
    } else if rv >= 0 {
        Err(SyscallError::UnexpectedSuccess(rv))
    } else if contains_code(expected, errno) {
        Ok(rv)
    } else {
        Err(SyscallError::UnexpectedErrno(errno))
    }
}

/// Checked against an allow-list of one code, a call passes exactly when it
/// failed with that code: a success, or a failure with any other code, is
/// reported.
pub proof fn lemma_single_code_allow_list(rv: i64, errno: i32, code: i32)
    ensures
        check_outcome(rv, errno, seq![code]) is Ok <==> is_failure(rv) && errno == code,
        !is_failure(rv) ==> check_outcome(rv, errno, seq![code]) == Err::<i64, SyscallError>(
            SyscallError::UnexpectedSuccess(rv),
        ),
        is_failure(rv) && errno != code ==> check_outcome(rv, errno, seq![code]) == Err::<i64, SyscallError>(
            SyscallError::UnexpectedErrno(errno),
        ),
{
    if seq![code].contains(errno) {
        assert(seq![code][0] == code);
    }
    assert(seq![code][0] == code);
}

/// Checked against an empty allow-list, a call passes exactly when it
/// succeeded, and its value is handed back unchanged.
pub proof fn lemma_empty_allow_list(rv: i64, errno: i32)
    ensures
        check_outcome(rv, errno, Seq::empty()) is Ok <==> !is_failure(rv),
        !is_failure(rv) ==> check_outcome(rv, errno, Seq::empty()) == Ok::<i64, SyscallError>(rv),
{
}

} // verus!
