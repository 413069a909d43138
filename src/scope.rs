use vstd::prelude::*;

verus! {

/// Whether `close` may have been handed `fd`: some status is one that it
/// returns for `fd`.
pub open spec fn was_closed<C: Fn(i32) -> i32>(close: C, fd: i32) -> bool {
    exists|status: i32| #[trigger] close.ensures((fd,), status)
}

/// Runs `body`, then hands every descriptor of `fds` to `close`, whatever the
/// body returned, and returns the body's result unchanged.
///
/// What `close` returns is ignored, so a descriptor that fails to close does
/// not change the outcome. Scopes nest: a body may itself call this function
/// on descriptors that it made.
pub fn run_and_close_fds<T, F: FnOnce() -> T, C: Fn(i32) -> i32>(fds: &[i32], body: F, close: C) -> (r: T)
    requires
        body.requires(()),
        forall|fd: i32| #[trigger] close.requires((fd,)),
    ensures
        body.ensures((), r),
        forall|k: int|
            0 <= k < fds@.len() ==> #[trigger] was_closed(close, fds@[k]),
{
    let r = body();
    let mut i: usize = 0;
    while i < fds.len()
        invariant
            i <= fds@.len(),
            forall|fd: i32| #[trigger] close.requires((fd,)),
            forall|k: int|
                0 <= k < i ==> #[trigger] was_closed(close, fds@[k]),
        decreases fds@.len() - i,
    {
        let status = close(fds[i]);
        assert(close.ensures((fds@[i as int],), status));
        assert(was_closed(close, fds@[i as int]));
        i = i + 1;
    }
    r
}

} // verus!
