use crate::case::ShadowTest;
use vstd::prelude::*;
use vstd::string::StringExecFns;

verus! {

/// A case that failed, with the message its body returned.
#[derive(Debug)]
pub struct Failure {
    /// The case's name.
    pub name: String,
    /// What the case's body reported.
    pub message: String,
}

/// The failure of the case named `name` with `message`.
pub open spec fn failure_of(name: String, message: String) -> Failure {
    Failure { name, message }
}

/// Whether some case of `tests` has the failure's name and may return its message.
pub open spec fn reported_by<B: Fn() -> Result<(), String>>(tests: Seq<ShadowTest<B>>, f: Failure) -> bool {
    exists|i: int|
        0 <= i < tests.len() && #[trigger] tests[i].spec_name() == f.name@ && tests[i].spec_func().ensures(
            (),
            Err::<(), String>(f.message),
        )
}

/// Whether every case of `tests` may have returned `Ok`.
pub open spec fn all_passed<B: Fn() -> Result<(), String>>(tests: Seq<ShadowTest<B>>) -> bool {
    forall|i: int| 0 <= i < tests.len() ==> #[trigger] tests[i].spec_func().ensures((), Ok::<(), String>(()))
}

/// The names and messages of a list of failures.
pub open spec fn failure_views(fs: Seq<Failure>) -> Seq<(Seq<char>, Seq<char>)> {
    fs.map_values(|f: Failure| (f.name@, f.message@))
}

/// The failures, as names and messages in case order, of a run in which the
/// cases of `tests` returned `outs`.
pub open spec fn failures_of<B>(tests: Seq<ShadowTest<B>>, outs: Seq<Result<(), String>>) -> Seq<
    (Seq<char>, Seq<char>),
>
    decreases tests.len(),
{
    if tests.len() == 0 || outs.len() == 0 {
        Seq::empty()
    } else {
        let prev = failures_of(tests.drop_last(), outs.drop_last());
        match outs.last() {
            Ok(_) => prev,
            Err(m) => prev.push((tests.last().spec_name(), m@)),
        }
    }
}

/// What the runner asks for after a case has run.
#[derive(Clone, Copy, Debug, PartialEq, Eq, Structural)]
pub enum Step {
    /// Run the next case.
    Continue,
    /// Stop the run: it has failed.
    Abort,
}

/// The bookkeeping of one run over a list of cases.
pub struct Runner {
    summarize: bool,
    failures: Vec<Failure>,
    aborted: bool,
}

impl Runner {
    /// Whether failures are collected rather than fatal.
    pub closed spec fn spec_summarize(&self) -> bool {
        self.summarize
    }

    /// The failures recorded so far, in the order the cases ran.
    pub closed spec fn spec_failures(&self) -> Seq<Failure> {
        self.failures@
    }

    /// Whether the run has been stopped.
    pub closed spec fn spec_aborted(&self) -> bool {
        self.aborted
    }

    /// A run that has recorded nothing yet.
    pub fn new(summarize: bool) -> (r: Runner)
        ensures
            r.spec_summarize() == summarize,
            r.spec_failures() == Seq::<Failure>::empty(),
            !r.spec_aborted(),
    {
        Runner { summarize, failures: Vec::new(), aborted: false }
    }

    /// Records what the case named `name` returned, and says whether to go on.
    ///
    /// A success changes nothing. A failure is recorded; outside summarize
    /// mode it also stops the run.
    pub fn record(&mut self, name: String, result: Result<(), String>) -> (r: Step)
        requires
            !old(self).spec_aborted(),
        ensures
            final(self).spec_summarize() == old(self).spec_summarize(),
            result is Ok ==> r == Step::Continue,
            result is Ok ==> final(self).spec_failures() == old(self).spec_failures(),
            result is Ok ==> !final(self).spec_aborted(),
            result is Err ==> final(self).spec_failures() == old(self).spec_failures().push(
                failure_of(name, result->Err_0),
            ),
            result is Err && old(self).spec_summarize() ==> r == Step::Continue,
            result is Err && old(self).spec_summarize() ==> !final(self).spec_aborted(),
            result is Err && !old(self).spec_summarize() ==> r == Step::Abort,
            result is Err && !old(self).spec_summarize() ==> final(self).spec_aborted(),
    {
        match result {
            Ok(()) => Step::Continue,
            Err(message) => {
                self.failures.push(Failure { name, message });
                if self.summarize {
                    Step::Continue
                } else {
                    self.aborted = true;
                    Step::Abort
                }
            },
        }
    }

    /// Ends the run: success when no failure was recorded, and otherwise
    /// every recorded failure, in order.
    pub fn finish(self) -> (r: Result<(), Vec<Failure>>)
        ensures
            r is Ok <==> self.spec_failures().len() == 0,
            r is Err ==> r->Err_0@ == self.spec_failures(),
    {
        if self.failures.len() == 0 {
            Ok(())
        } else {
            Err(self.failures)
        }
    }
}

/// Runs each case's body in list order and reports the run.
///
/// The run succeeds only when every body returned `Ok`. Outside summarize
/// mode the first failure stops it and is the one reported; in summarize
/// mode every case runs and each failure is reported, with its case's name.
pub fn run_tests<B: Fn() -> Result<(), String>>(tests: &Vec<ShadowTest<B>>, summarize: bool) -> (r:
    Result<(), Vec<Failure>>)
    requires
        forall|i: int| 0 <= i < tests@.len() ==> #[trigger] tests@[i].spec_func().requires(()),
    ensures
        r is Ok ==> all_passed(tests@),
        r is Err ==> r->Err_0@.len() > 0,
        r is Err ==> forall|j: int|
            0 <= j < r->Err_0@.len() ==> reported_by(tests@, #[trigger] r->Err_0@[j]),
        r is Err && !summarize ==> r->Err_0@.len() == 1,
        summarize ==> exists|outs: Seq<Result<(), String>>|
            {
                &&& outs.len() == tests@.len()
                &&& forall|i: int| 0 <= i < tests@.len() ==> #[trigger] tests@[i].spec_func().ensures((), outs[i])
                &&& r is Ok <==> failures_of(tests@, outs).len() == 0
                &&& r is Err ==> failure_views(r->Err_0@) == failures_of(tests@, outs)
            },
        r is Err && !summarize ==> exists|i: int|
            0 <= i < tests@.len() && #[trigger] tests@[i].spec_name() == r->Err_0@[0].name@
                && tests@[i].spec_func().ensures((), Err::<(), String>(r->Err_0@[0].message))
                && all_passed(tests@.subrange(0, i)),
{
    let mut runner = Runner::new(summarize);
    let mut i: usize = 0;
    let mut stop = false;
    let ghost mut outs: Seq<Result<(), String>> = Seq::empty();
    while i < tests.len() && !stop
        invariant
            outs.len() == i,
            forall|k: int| 0 <= k < i ==> #[trigger] tests@[k].spec_func().ensures((), outs[k]),
            summarize ==> !stop,
            summarize ==> failure_views(runner.spec_failures()) == failures_of(
                tests@.subrange(0, i as int),
                outs,
            ),
            i <= tests@.len(),
            runner.spec_summarize() == summarize,
            stop == runner.spec_aborted(),
            stop ==> runner.spec_failures().len() > 0,
            !summarize ==> runner.spec_failures().len() <= 1,
            !summarize && !stop ==> runner.spec_failures().len() == 0,
            !summarize && stop ==> exists|k: int|
                0 <= k < i && #[trigger] tests@[k].spec_name() == runner.spec_failures()[0].name@
                    && tests@[k].spec_func().ensures((), Err::<(), String>(runner.spec_failures()[0].message))
                    && all_passed(tests@.subrange(0, k)),
            forall|k: int| 0 <= k < tests@.len() ==> #[trigger] tests@[k].spec_func().requires(()),
            runner.spec_failures().len() == 0 ==> all_passed(tests@.subrange(0, i as int)),
            forall|j: int|
                0 <= j < runner.spec_failures().len() ==> reported_by(
                    tests@.subrange(0, i as int),
                    #[trigger] runner.spec_failures()[j],
                ),
        decreases tests@.len() - i,
    {
        let t = &tests[i];
        let f = t.func();
        let result = f();
        let name = String::from_str(t.name());
        let ghost before = runner.spec_failures();
        let ghost res = result;
        let step = runner.record(name, result);
        proof {
            let prev_outs = outs;
            outs = outs.push(res);
            assert(outs.drop_last() =~= prev_outs);
            assert(tests@.subrange(0, i + 1).drop_last() =~= tests@.subrange(0, i as int));
            assert(tests@.subrange(0, i + 1).last() == tests@[i as int]);
            assert(outs.last() == res);
            assert forall|k: int| 0 <= k < i + 1 implies #[trigger] tests@[k].spec_func().ensures((), outs[k]) by {
                if k < i {
                    assert(outs[k] == prev_outs[k]);
                }
            }
            if summarize {
                if res is Err {
                    assert(failure_views(runner.spec_failures()) =~= failure_views(before).push(
                        (tests@[i as int].spec_name(), res->Err_0@),
                    ));
                } else {
                    assert(failure_views(runner.spec_failures()) =~= failure_views(before));
                }
            }
            if res is Ok {
                assert(res->Ok_0 == ());
                assert(res == Ok::<(), String>(res->Ok_0));
            }
            if before.len() == 0 && res is Ok {
                assert forall|k: int| 0 <= k < i + 1 implies #[trigger] tests@.subrange(0, i + 1)[k].spec_func().ensures(
                    (),
                    Ok::<(), String>(()),
                ) by {
                    if k < i {
                        assert(tests@.subrange(0, i + 1)[k] == tests@.subrange(0, i as int)[k]);
                    }
                }
            }
            assert forall|j: int| 0 <= j < runner.spec_failures().len() implies reported_by(
                tests@.subrange(0, i + 1),
                #[trigger] runner.spec_failures()[j],
            ) by {
                if j < before.len() {
                    assert(runner.spec_failures()[j] == before[j]);
                    let k = choose|k: int|
                        0 <= k < i && #[trigger] tests@.subrange(0, i as int)[k].spec_name() == before[j].name@
                            && tests@.subrange(0, i as int)[k].spec_func().ensures((), Err::<(), String>(before[j].message));
                    assert(tests@.subrange(0, i + 1)[k] == tests@.subrange(0, i as int)[k]);
                } else {
                    assert(tests@.subrange(0, i + 1)[i as int] == tests@[i as int]);
                }
            }
        }
        i = i + 1;
        stop = step == Step::Abort;
    }
    let ghost failures = runner.spec_failures();
    match runner.finish() {
        Ok(()) => {
            assert(tests@.subrange(0, i as int) =~= tests@);
            assert(failure_views(failures).len() == failures.len());
            Ok(())
        },
        Err(v) => {
            let r: Result<(), Vec<Failure>> = Err(v);
            assert forall|j: int| 0 <= j < r->Err_0@.len() implies reported_by(
                tests@,
                #[trigger] r->Err_0@[j],
            ) by {
                assert(r->Err_0@[j] == failures[j]);
                let k = choose|k: int|
                    0 <= k < i && #[trigger] tests@.subrange(0, i as int)[k].spec_name() == failures[j].name@
                        && tests@.subrange(0, i as int)[k].spec_func().ensures((), Err::<(), String>(failures[j].message));
                assert(tests@.subrange(0, i as int)[k] == tests@[k]);
            }
            if summarize {
                assert(tests@.subrange(0, i as int) =~= tests@);
                assert(failure_views(failures).len() == failures.len());
            }
            r
        },
    }
}

} // verus!
