use crate::checks::{bytes_equal, result_assert};
use vstd::prelude::*;
use vstd::string::StringExecFns;

verus! {

/// Checks the two descriptors that creating a pipe filled in, and returns
/// them as `(read end, write end)`.
///
/// Both must be positive: a descriptor left at zero was never set.
pub fn pipe_ends(fds: [i32; 2]) -> (r: Result<(i32, i32), String>)
    ensures
        r is Ok <==> fds@[0] > 0 && fds@[1] > 0,
        r is Ok ==> r->Ok_0 == (fds@[0], fds@[1]),
        fds@[0] <= 0 ==> r is Err && r->Err_0@ == "fds[0] not set"@,
        fds@[0] > 0 && fds@[1] <= 0 ==> r is Err && r->Err_0@ == "fds[1] not set"@,
{
    let read_fd = fds[0];
    let write_fd = fds[1];
    result_assert(read_fd > 0, "fds[0] not set")?;
    result_assert(write_fd > 0, "fds[1] not set")?;
    Ok((read_fd, write_fd))
}

/// Checks that `read` holds `first` followed by `second`: what two writes
/// into the same pipe, through any descriptors of its write end, leave for
/// one read. A difference in the first part fails with `first_msg`, and one
/// in the second part with `second_msg`.
pub fn check_concatenated(first: &[u8], second: &[u8], read: &[u8], first_msg: &str, second_msg: &str) -> (r:
    Result<(), String>)
    requires
        read@.len() == first@.len() + second@.len(),
    ensures
        r is Ok <==> read@ == first@ + second@,
        read@.subrange(0, first@.len() as int) != first@ ==> r is Err && r->Err_0@ == first_msg@,
        read@.subrange(0, first@.len() as int) == first@ && read@ != first@ + second@ ==> r is Err
            && r->Err_0@ == second_msg@,
{
    let split = first.len();
    let head = vstd::slice::slice_subrange(read, 0, split);
    let tail = vstd::slice::slice_subrange(read, split, read.len());
    if !bytes_equal(head, first) {
        assert(read@ != first@ + second@) by {
            if read@ == first@ + second@ {
                assert(read@.subrange(0, split as int) =~= first@);
            }
        }
        return Err(String::from_str(first_msg));
    }
    if !bytes_equal(tail, second) {
        assert(read@ != first@ + second@) by {
            if read@ == first@ + second@ {
                assert(read@.subrange(split as int, read@.len() as int) =~= second@);
            }
        }
        return Err(String::from_str(second_msg));
    }
    assert(read@ =~= first@ + second@);
    Ok(())
}

} // verus!
