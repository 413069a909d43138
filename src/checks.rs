use vstd::prelude::*;
use vstd::string::StringExecFns;

verus! {

/// Succeeds when `cond` holds, and otherwise fails with `msg`.
pub fn result_assert(cond: bool, msg: &str) -> (r: Result<(), String>)
    ensures
        cond ==> r == Ok::<(), String>(()),
        !cond ==> r is Err && r->Err_0@ == msg@,
{
    if cond {
        Ok(())
    } else {
        Err(String::from_str(msg))
    }
}

/// Succeeds when the two integers are equal, and otherwise fails with `msg`.
pub fn result_assert_eq(found: i64, wanted: i64, msg: &str) -> (r: Result<(), String>)
    ensures
        found == wanted ==> r == Ok::<(), String>(()),
        found != wanted ==> r is Err && r->Err_0@ == msg@,
{
    result_assert(found == wanted, msg)
}

/// Whether the two byte sequences are equal.
pub fn bytes_equal(a: &[u8], b: &[u8]) -> (r: bool)
    ensures
        r == (a@ == b@),
{
    if a.len() != b.len() {
        return false;
    }
    let mut i: usize = 0;
    while i < a.len()
        invariant
            a@.len() == b@.len(),
            i <= a@.len(),
            forall|k: int| 0 <= k < i ==> a@[k] == b@[k],
        decreases a@.len() - i,
    {
        if a[i] != b[i] {
            return false;
        }
        i = i + 1;
    }
    assert(a@ =~= b@);
    true
}

/// Succeeds when the two byte sequences are equal, and otherwise fails with `msg`.
pub fn result_assert_bytes_eq(found: &[u8], wanted: &[u8], msg: &str) -> (r: Result<(), String>)
    ensures
        found@ == wanted@ ==> r == Ok::<(), String>(()),
        found@ != wanted@ ==> r is Err && r->Err_0@ == msg@,
{
    result_assert(bytes_equal(found, wanted), msg)
}

} // verus!
