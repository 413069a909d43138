use crate::checks::bytes_equal;
use crate::pipe::check_concatenated;
use crate::syscall::{check_outcome, check_system_call, SyscallError};
use vstd::prelude::*;
use vstd::string::StringExecFns;

verus! {

/// Why a pipe scenario failed.
#[derive(Debug)]
pub enum ScenarioError {
    /// A call did not meet its allow-list.
    Syscall(SyscallError),
    /// A call returned what the scenario does not expect.
    Assert(String),
}

/// What a scenario asks its caller to do next: make one system call and hand
/// back what it returned, or take the verdict.
#[derive(Debug)]
pub enum Call {
    /// Write `data` to `fd`.
    Write { fd: i32, data: Vec<u8> },
    /// Read up to `len` bytes from `fd` into a buffer of `len` zero bytes.
    Read { fd: i32, len: usize },
    /// Duplicate `fd`.
    Dup { fd: i32 },
    /// The scenario is over.
    Done(Result<(), ScenarioError>),
}

/// Whether `c` asks to write `data` to `fd`.
pub open spec fn is_write(c: Call, fd: i32, data: Seq<u8>) -> bool {
    match c {
        Call::Write { fd: f, data: d } => f == fd && d@ == data,
        _ => false,
    }
}

/// Whether `c` asks to read `len` bytes from `fd`.
pub open spec fn is_read(c: Call, fd: i32, len: nat) -> bool {
    match c {
        Call::Read { fd: f, len: l } => f == fd && l == len,
        _ => false,
    }
}

/// Whether `c` asks to duplicate `fd`.
pub open spec fn is_dup(c: Call, fd: i32) -> bool {
    match c {
        Call::Dup { fd: f } => f == fd,
        _ => false,
    }
}

/// Whether `c` is the verdict that the scenario passed.
pub open spec fn is_pass(c: Call) -> bool {
    match c {
        Call::Done(Ok(())) => true,
        _ => false,
    }
}

/// Whether `c` is the verdict that the scenario failed with `msg`.
pub open spec fn is_fail(c: Call, msg: Seq<char>) -> bool {
    match c {
        Call::Done(Err(ScenarioError::Assert(m))) => m@ == msg,
        _ => false,
    }
}

/// Whether `c` is the verdict that a call failed its check with `e`.
pub open spec fn is_syscall_fail(c: Call, e: SyscallError) -> bool {
    match c {
        Call::Done(Err(ScenarioError::Syscall(f))) => f == e,
        _ => false,
    }
}

/// Whether `c` ends the scenario.
pub open spec fn is_done(c: Call) -> bool {
    c is Done
}

/// The bytes that the scenarios write.
pub open spec fn payload() -> Seq<u8> {
    seq![1u8, 2u8, 3u8, 4u8]
}

fn make_payload() -> (r: Vec<u8>)
    ensures
        r@ == payload(),
{
    let mut r: Vec<u8> = Vec::new();
    r.push(1);
    r.push(2);
    r.push(3);
    r.push(4);
    assert(r@ =~= payload());
    r
}

fn fail(msg: &str) -> (r: Call)
    ensures
        is_fail(r, msg@),
{
    Call::Done(Err(ScenarioError::Assert(String::from_str(msg))))
}

/// Checks a call that must succeed and return `want`: `None` when it did,
/// and otherwise the verdict.
fn counted(rv: i64, errno: i32, want: i64, msg: &str) -> (r: Option<Call>)
    ensures
        rv < 0 ==> r is Some && is_syscall_fail(r->Some_0, SyscallError::UnexpectedErrno(errno)),
        rv >= 0 && rv != want ==> r is Some && is_fail(r->Some_0, msg@),
        rv >= 0 && rv == want ==> r is None,
{
    let none: Vec<i32> = Vec::new();
    match check_system_call(rv, errno, none.as_slice()) {
        Err(e) => Some(Call::Done(Err(ScenarioError::Syscall(e)))),
        Ok(v) => {
            if v != want {
                Some(fail(msg))
            } else {
                None
            }
        },
    }
}

/// Checks a call that must fail with `code`: `None` when it did, and
/// otherwise the verdict.
fn refused(rv: i64, errno: i32, code: i32) -> (r: Option<Call>)
    ensures
        check_outcome(rv, errno, seq![code]) is Ok ==> r is None,
        check_outcome(rv, errno, seq![code]) is Err ==> r is Some && is_syscall_fail(
            r->Some_0,
            check_outcome(rv, errno, seq![code])->Err_0,
        ),
{
    let mut codes: Vec<i32> = Vec::new();
    codes.push(code);
    assert(codes@ =~= seq![code]);
    match check_system_call(rv, errno, codes.as_slice()) {
        Err(e) => Some(Call::Done(Err(ScenarioError::Syscall(e)))),
        Ok(_) => None,
    }
}

/// Writes four bytes, then reads four bytes back and compares them.
pub struct ReadWrite {
    read_fd: i32,
    stage: u8,
}

impl ReadWrite {
    /// The pipe's read end.
    pub closed spec fn spec_read_fd(&self) -> i32 {
        self.read_fd
    }

    /// The step the scenario is at: 0 before the write's result, 1 before
    /// the read's, 2 once over.
    pub closed spec fn spec_stage(&self) -> nat {
        self.stage as nat
    }

    /// The scenario on a pipe, with the first call it asks for.
    pub fn new(read_fd: i32, write_fd: i32) -> (r: (ReadWrite, Call))
        ensures
            r.0.spec_stage() == 0,
            r.0.spec_read_fd() == read_fd,
            is_write(r.1, write_fd, payload()),
    {
        (ReadWrite { read_fd, stage: 0 }, Call::Write { fd: write_fd, data: make_payload() })
    }

    /// Takes what the last call returned (`rv`, the error code, and for a
    /// read the buffer) and says what comes next.
    pub fn next(&mut self, rv: i64, errno: i32, bytes: &[u8]) -> (r: Call)
        requires
            old(self).spec_stage() < 2,
            old(self).spec_stage() == 1 ==> bytes@.len() == 4,
        ensures
            final(self).spec_read_fd() == old(self).spec_read_fd(),
            is_done(r) ==> final(self).spec_stage() == 2,
            !is_done(r) ==> final(self).spec_stage() == old(self).spec_stage() + 1,
            old(self).spec_stage() == 0 ==> {
                &&& rv < 0 ==> is_syscall_fail(r, SyscallError::UnexpectedErrno(errno))
                &&& rv >= 0 && rv != 4 ==> is_fail(r, "Expected to write 4 bytes"@)
                &&& rv == 4 ==> is_read(r, old(self).spec_read_fd(), 4)
            },
            old(self).spec_stage() == 1 ==> {
                &&& rv < 0 ==> is_syscall_fail(r, SyscallError::UnexpectedErrno(errno))
                &&& rv >= 0 && rv != 4 ==> is_fail(r, "Expected to read 4 bytes"@)
                &&& rv == 4 && bytes@ != payload() ==> is_fail(r, "Buffers differ"@)
                &&& rv == 4 && bytes@ == payload() ==> is_pass(r)
            },
    {
        if self.stage == 0 {
            match counted(rv, errno, 4, "Expected to write 4 bytes") {
                Some(c) => {
                    self.stage = 2;
                    c
                },
                None => {
                    self.stage = 1;
                    Call::Read { fd: self.read_fd, len: 4 }
                },
            }
        } else {
            self.stage = 2;
            match counted(rv, errno, 4, "Expected to read 4 bytes") {
                Some(c) => c,
                None => {
                    let want = make_payload();
                    if bytes_equal(bytes, want.as_slice()) {
                        Call::Done(Ok(()))
                    } else {
                        fail("Buffers differ")
                    }
                },
            }
        }
    }
}


/// Writes zero bytes, then reads zero bytes twice: each call returns zero.
pub struct ReadWriteEmpty {
    read_fd: i32,
    stage: u8,
}

impl ReadWriteEmpty {
    /// The pipe's read end.
    pub closed spec fn spec_read_fd(&self) -> i32 {
        self.read_fd
    }

    /// The step the scenario is at: 0 before the write's result, 1 and 2
    /// before the two reads', 3 once over.
    pub closed spec fn spec_stage(&self) -> nat {
        self.stage as nat
    }

    /// The scenario on a pipe, with the first call it asks for.
    pub fn new(read_fd: i32, write_fd: i32) -> (r: (ReadWriteEmpty, Call))
        ensures
            r.0.spec_stage() == 0,
            r.0.spec_read_fd() == read_fd,
            is_write(r.1, write_fd, Seq::empty()),
    {
        (ReadWriteEmpty { read_fd, stage: 0 }, Call::Write { fd: write_fd, data: Vec::new() })
    }

    /// Takes what the last call returned and says what comes next.
    pub fn next(&mut self, rv: i64, errno: i32) -> (r: Call)
        requires
            old(self).spec_stage() < 3,
        ensures
            final(self).spec_read_fd() == old(self).spec_read_fd(),
            is_done(r) ==> final(self).spec_stage() == 3,
            !is_done(r) ==> final(self).spec_stage() == old(self).spec_stage() + 1,
            rv < 0 ==> is_syscall_fail(r, SyscallError::UnexpectedErrno(errno)),
            old(self).spec_stage() == 0 && rv > 0 ==> is_fail(r, "Expected to write 0 bytes"@),
            old(self).spec_stage() >= 1 && rv > 0 ==> is_fail(r, "Expected to read 0 bytes"@),
            old(self).spec_stage() < 2 && rv == 0 ==> is_read(r, old(self).spec_read_fd(), 0),
            old(self).spec_stage() == 2 && rv == 0 ==> is_pass(r),
    {
        let msg = if self.stage == 0 {
            "Expected to write 0 bytes"
        } else {
            "Expected to read 0 bytes"
        };
        match counted(rv, errno, 0, msg) {
            Some(c) => {
                self.stage = 3;
                c
            },
            None => {
                if self.stage == 2 {
                    self.stage = 3;
                    Call::Done(Ok(()))
                } else {
                    self.stage = self.stage + 1;
                    Call::Read { fd: self.read_fd, len: 0 }
                }
            },
        }
    }
}

/// Writes to the read end: the write must fail with the bad-descriptor code.
pub struct WriteToReadEnd {
    bad_fd_code: i32,
}

impl WriteToReadEnd {
    /// The code that the write must fail with.
    pub closed spec fn spec_code(&self) -> i32 {
        self.bad_fd_code
    }

    /// The scenario on a pipe, where `bad_fd_code` is the platform's
    /// bad-descriptor error code, with the call it asks for.
    pub fn new(read_fd: i32, bad_fd_code: i32) -> (r: (WriteToReadEnd, Call))
        ensures
            r.0.spec_code() == bad_fd_code,
            is_write(r.1, read_fd, payload()),
    {
        (WriteToReadEnd { bad_fd_code }, Call::Write { fd: read_fd, data: make_payload() })
    }

    /// Takes what the write returned and gives the verdict.
    pub fn next(&self, rv: i64, errno: i32) -> (r: Call)
        ensures
            check_outcome(rv, errno, seq![self.spec_code()]) is Ok ==> is_pass(r),
            check_outcome(rv, errno, seq![self.spec_code()]) is Err ==> is_syscall_fail(
                r,
                check_outcome(rv, errno, seq![self.spec_code()])->Err_0,
            ),
    {
        match refused(rv, errno, self.bad_fd_code) {
            Some(c) => c,
            None => Call::Done(Ok(())),
        }
    }
}

/// Writes four bytes, then reads from the write end: the read must fail with
/// the bad-descriptor code.
pub struct ReadFromWriteEnd {
    write_fd: i32,
    bad_fd_code: i32,
    stage: u8,
}

impl ReadFromWriteEnd {
    /// The pipe's write end.
    pub closed spec fn spec_write_fd(&self) -> i32 {
        self.write_fd
    }

    /// The code that the read must fail with.
    pub closed spec fn spec_code(&self) -> i32 {
        self.bad_fd_code
    }

    /// The step the scenario is at: 0 before the write's result, 1 before
    /// the read's, 2 once over.
    pub closed spec fn spec_stage(&self) -> nat {
        self.stage as nat
    }

    /// The scenario on a pipe, where `bad_fd_code` is the platform's
    /// bad-descriptor error code, with the first call it asks for.
    pub fn new(write_fd: i32, bad_fd_code: i32) -> (r: (ReadFromWriteEnd, Call))
        ensures
            r.0.spec_stage() == 0,
            r.0.spec_write_fd() == write_fd,
            r.0.spec_code() == bad_fd_code,
            is_write(r.1, write_fd, payload()),
    {
        (ReadFromWriteEnd { write_fd, bad_fd_code, stage: 0 }, Call::Write { fd: write_fd, data: make_payload() })
    }

    /// Takes what the last call returned and says what comes next.
    pub fn next(&mut self, rv: i64, errno: i32) -> (r: Call)
        requires
            old(self).spec_stage() < 2,
        ensures
            final(self).spec_write_fd() == old(self).spec_write_fd(),
            final(self).spec_code() == old(self).spec_code(),
            is_done(r) ==> final(self).spec_stage() == 2,
            !is_done(r) ==> final(self).spec_stage() == old(self).spec_stage() + 1,
            old(self).spec_stage() == 0 ==> {
                &&& rv < 0 ==> is_syscall_fail(r, SyscallError::UnexpectedErrno(errno))
                &&& rv >= 0 && rv != 4 ==> is_fail(r, "Expected to write 4 bytes"@)
                &&& rv == 4 ==> is_read(r, old(self).spec_write_fd(), 4)
            },
            old(self).spec_stage() == 1 ==> {
                let out = check_outcome(rv, errno, seq![old(self).spec_code()]);
                &&& out is Ok ==> is_pass(r)
                &&& out is Err ==> is_syscall_fail(r, out->Err_0)
            },
    {
        if self.stage == 0 {
            match counted(rv, errno, 4, "Expected to write 4 bytes") {
                Some(c) => {
                    self.stage = 2;
                    c
                },
                None => {
                    self.stage = 1;
                    Call::Read { fd: self.write_fd, len: 4 }
                },
            }
        } else {
            self.stage = 2;
            match refused(rv, errno, self.bad_fd_code) {
                Some(c) => c,
                None => Call::Done(Ok(())),
            }
        }
    }
}

/// Duplicates the write end, writes four bytes through each of the two
/// descriptors, and reads eight bytes: both payloads, in write order.
pub struct Dup {
    read_fd: i32,
    write_fd: i32,
    dup_fd: Option<i32>,
    stage: u8,
}

impl Dup {
    /// The pipe's read end.
    pub closed spec fn spec_read_fd(&self) -> i32 {
        self.read_fd
    }

    /// The pipe's write end.
    pub closed spec fn spec_write_fd(&self) -> i32 {
        self.write_fd
    }

    /// The duplicate of the write end, once made.
    pub closed spec fn spec_dup_fd(&self) -> Option<i32> {
        self.dup_fd
    }

    /// The duplicate exists exactly from the first write on.
    pub closed spec fn wf(&self) -> bool {
        &&& self.stage <= 4
        &&& self.stage == 0 ==> self.dup_fd is None
        &&& 1 <= self.stage <= 3 ==> self.dup_fd is Some
    }

    /// The step the scenario is at: 0 before the duplication's result, 1 and
    /// 2 before the two writes', 3 before the read's, 4 once over.
    pub closed spec fn spec_stage(&self) -> nat {
        self.stage as nat
    }

    /// The scenario on a pipe, with the first call it asks for.
    pub fn new(read_fd: i32, write_fd: i32) -> (r: (Dup, Call))
        ensures
            r.0.spec_stage() == 0,
            r.0.spec_read_fd() == read_fd,
            r.0.spec_write_fd() == write_fd,
            r.0.spec_dup_fd() == None::<i32>,
            r.0.wf(),
            is_dup(r.1, write_fd),
    {
        (Dup { read_fd, write_fd, dup_fd: None, stage: 0 }, Call::Dup { fd: write_fd })
    }

    /// The duplicate of the write end, once made: the caller closes it.
    pub fn dup_fd(&self) -> (r: Option<i32>)
        ensures
            r == self.spec_dup_fd(),
    {
        self.dup_fd
    }

    /// Takes what the last call returned (for the read, with its buffer) and
    /// says what comes next.
    pub fn next(&mut self, rv: i64, errno: i32, bytes: &[u8]) -> (r: Call)
        requires
            old(self).wf(),
            old(self).spec_stage() < 4,
            old(self).spec_stage() == 3 ==> bytes@.len() == 8,
        ensures
            final(self).wf(),
            final(self).spec_read_fd() == old(self).spec_read_fd(),
            final(self).spec_write_fd() == old(self).spec_write_fd(),
            old(self).spec_stage() > 0 ==> final(self).spec_dup_fd() == old(self).spec_dup_fd(),
            is_done(r) ==> final(self).spec_stage() == 4,
            !is_done(r) ==> final(self).spec_stage() == old(self).spec_stage() + 1,
            rv < 0 ==> is_syscall_fail(r, SyscallError::UnexpectedErrno(errno)),
            old(self).spec_stage() == 0 ==> {
                &&& 0 <= rv <= i32::MAX ==> is_write(r, old(self).spec_write_fd(), payload())
                    && final(self).spec_dup_fd() == Some(rv as i32)
                &&& rv > i32::MAX ==> is_fail(r, "Descriptor out of range"@)
                    && final(self).spec_dup_fd() == None::<i32>
                &&& rv < 0 ==> final(self).spec_dup_fd() == None::<i32>
            },
            old(self).spec_stage() == 1 ==> {
                &&& rv >= 0 && rv != 4 ==> is_fail(r, "Expected to write 4 bytes"@)
                &&& rv == 4 ==> old(self).spec_dup_fd() is Some && is_write(
                    r,
                    old(self).spec_dup_fd()->Some_0,
                    payload(),
                )
            },
            old(self).spec_stage() == 2 ==> {
                &&& rv >= 0 && rv != 4 ==> is_fail(r, "Expected to write 4 bytes"@)
                &&& rv == 4 ==> is_read(r, old(self).spec_read_fd(), 8)
            },
            old(self).spec_stage() == 3 ==> {
                &&& rv >= 0 && rv != 8 ==> is_fail(r, "Expected to read 8 bytes"@)
                &&& rv == 8 && bytes@.subrange(0, 4) != payload() ==> is_fail(r, "First 4 bytes differ"@)
                &&& rv == 8 && bytes@.subrange(0, 4) == payload() && bytes@ != payload() + payload()
                    ==> is_fail(r, "Last 4 bytes differ"@)
                &&& rv == 8 && bytes@ == payload() + payload() ==> is_pass(r)
            },
    {
        if self.stage == 0 {
            let none: Vec<i32> = Vec::new();
            match check_system_call(rv, errno, none.as_slice()) {
                Err(e) => {
                    self.stage = 4;
                    Call::Done(Err(ScenarioError::Syscall(e)))
                },
                Ok(v) => {
                    if v > i32::MAX as i64 {
                        self.stage = 4;
                        fail("Descriptor out of range")
                    } else {
                        self.dup_fd = Some(v as i32);
                        self.stage = 1;
                        Call::Write { fd: self.write_fd, data: make_payload() }
                    }
                },
            }
        } else if self.stage == 1 || self.stage == 2 {
            match counted(rv, errno, 4, "Expected to write 4 bytes") {
                Some(c) => {
                    self.stage = 4;
                    c
                },
                None => {
                    if self.stage == 1 {
                        match self.dup_fd {
                            Some(d) => {
                                self.stage = 2;
                                Call::Write { fd: d, data: make_payload() }
                            },
                            None => {
                                self.stage = 4;
                                fail("Descriptor out of range")
                            },
                        }
                    } else {
                        self.stage = 3;
                        Call::Read { fd: self.read_fd, len: 8 }
                    }
                },
            }
        } else {
            self.stage = 4;
            match counted(rv, errno, 8, "Expected to read 8 bytes") {
                Some(c) => c,
                None => {
                    let want = make_payload();
                    match check_concatenated(
                        want.as_slice(),
                        want.as_slice(),
                        bytes,
                        "First 4 bytes differ",
                        "Last 4 bytes differ",
                    ) {
                        Ok(()) => Call::Done(Ok(())),
                        Err(m) => Call::Done(Err(ScenarioError::Assert(m))),
                    }
                },
            }
        }
    }
}

} // verus!
