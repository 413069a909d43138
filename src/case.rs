use crate::env::{EnvSet, TestEnv};
use vstd::prelude::*;

verus! {

/// A named test body, with the targets under which it is expected to pass.
pub struct ShadowTest<B> {
    name: String,
    func: B,
    passing: EnvSet,
}

impl<B> ShadowTest<B> {
    /// The case's name.
    pub closed spec fn spec_name(&self) -> Seq<char> {
        self.name@
    }

    /// The case's body.
    pub closed spec fn spec_func(&self) -> B {
        self.func
    }

    /// The targets under which the case is expected to pass.
    pub closed spec fn spec_passing(&self) -> Set<TestEnv> {
        self.passing@
    }

    /// Makes a case from its name, its body and its targets.
    pub fn new(name: &str, func: B, passing: EnvSet) -> (r: ShadowTest<B>)
        ensures
            r.spec_name() == name@,
            r.spec_func() == func,
            r.spec_passing() == passing@,
    {
        ShadowTest { name: name.to_string(), func, passing }
    }

    /// The case's name.
    pub fn name(&self) -> (r: &str)
        ensures
            r@ == self.spec_name(),
    {
        self.name.as_str()
    }

    /// The case's body.
    pub fn func(&self) -> (r: &B)
        ensures
            *r == self.spec_func(),
    {
        &self.func
    }

    /// Whether the case is expected to pass under `env`.
    pub fn passing(&self, env: TestEnv) -> (r: bool)
        ensures
            r == self.spec_passing().contains(env),
    {
        self.passing.contains(env)
    }
}

/// Whether the filters keep a case: each flag that is set asks for its target.
pub open spec fn kept<B>(t: ShadowTest<B>, shadow_passing: bool, libc_passing: bool) -> bool {
    (shadow_passing ==> t.spec_passing().contains(TestEnv::Shadow)) && (libc_passing
        ==> t.spec_passing().contains(TestEnv::Libc))
}

/// The cases of `s` that the filters keep, in their order.
pub open spec fn filtered<B>(s: Seq<ShadowTest<B>>, shadow_passing: bool, libc_passing: bool) -> Seq<
    ShadowTest<B>,
>
    decreases s.len(),
{
    if s.len() == 0 {
        Seq::empty()
    } else if kept(s[0], shadow_passing, libc_passing) {
        seq![s[0]] + filtered(s.skip(1), shadow_passing, libc_passing)
    } else {
        filtered(s.skip(1), shadow_passing, libc_passing)
    }
}

/// Keeps the cases that pass under every target whose flag is set, in their order.
pub fn filter_tests<B>(tests: Vec<ShadowTest<B>>, shadow_passing: bool, libc_passing: bool) -> (r:
    Vec<ShadowTest<B>>)
    ensures
        r@ == filtered(tests@, shadow_passing, libc_passing),
{
    let mut rest = tests;
    let mut out: Vec<ShadowTest<B>> = Vec::new();
    while rest.len() > 0
        invariant
            out@ + filtered(rest@, shadow_passing, libc_passing) == filtered(
                tests@,
                shadow_passing,
                libc_passing,
            ),
        decreases rest@.len(),
    {
        let ghost before = rest@;
        let t = rest.remove(0);
        assert(rest@ =~= before.skip(1));
        let keep = (!shadow_passing || t.passing(TestEnv::Shadow)) && (!libc_passing || t.passing(
            TestEnv::Libc,
        ));
        if keep {
            assert(out@.push(t) + filtered(rest@, shadow_passing, libc_passing) =~= out@ + (seq![t]
                + filtered(rest@, shadow_passing, libc_passing)));
            out.push(t);
        }
    }
    assert(out@ + filtered(rest@, shadow_passing, libc_passing) =~= out@);
    out
}

} // verus!

verus! {

/// The filters keep exactly the cases that pass under every target whose
/// flag is set: each kept case comes from the list and passes, and each such
/// case of the list is kept.
pub proof fn lemma_filter_keeps_exactly<B>(s: Seq<ShadowTest<B>>, shadow_passing: bool, libc_passing: bool)
    ensures
        forall|t: ShadowTest<B>|
            #[trigger] filtered(s, shadow_passing, libc_passing).contains(t) <==> s.contains(t) && kept(
                t,
                shadow_passing,
                libc_passing,
            ),
    decreases s.len(),
{
    if s.len() > 0 {
        let rest = s.skip(1);
        lemma_filter_keeps_exactly(rest, shadow_passing, libc_passing);
        let f = filtered(s, shadow_passing, libc_passing);
        let fr = filtered(rest, shadow_passing, libc_passing);
        assert forall|t: ShadowTest<B>| f.contains(t) <==> s.contains(t) && kept(t, shadow_passing, libc_passing) by {
            if s.contains(t) {
                let k = choose|k: int| 0 <= k < s.len() && s[k] == t;
                if k > 0 {
                    assert(rest[k - 1] == t);
                }
            }
            if rest.contains(t) {
                let k = choose|k: int| 0 <= k < rest.len() && rest[k] == t;
                assert(s[k + 1] == t);
            }
            if kept(s[0], shadow_passing, libc_passing) {
                assert(f == seq![s[0]] + fr);
                if fr.contains(t) {
                    let k = choose|k: int| 0 <= k < fr.len() && fr[k] == t;
                    assert(f[k + 1] == t);
                }
                if f.contains(t) {
                    let k = choose|k: int| 0 <= k < f.len() && f[k] == t;
                    if k > 0 {
                        assert(fr[k - 1] == t);
                    }
                }
                assert(f[0] == s[0]);
            }
        }
    }
}

/// Filtering for the simulator and then for the native target keeps the same
/// cases, in the same order, as asking for both at once.
pub proof fn lemma_filters_compose<B>(s: Seq<ShadowTest<B>>)
    ensures
        filtered(filtered(s, true, false), false, true) == filtered(s, true, true),
    decreases s.len(),
{
    if s.len() > 0 {
        lemma_filters_compose(s.skip(1));
        let f = filtered(s, true, false);
        if kept(s[0], true, false) {
            assert(f[0] == s[0]);
            assert(f.skip(1) =~= filtered(s.skip(1), true, false));
        }
    }
}

/// With no flag set, the filter keeps every case in its place.
pub proof fn lemma_no_filter_keeps_all<B>(s: Seq<ShadowTest<B>>)
    ensures
        filtered(s, false, false) == s,
    decreases s.len(),
{
    if s.len() > 0 {
        lemma_no_filter_keeps_all(s.skip(1));
        assert(seq![s[0]] + s.skip(1) =~= s);
    }
}

} // verus!

verus! {

/// The set of both targets.
pub fn both_envs() -> (r: EnvSet)
    ensures
        r@ == set![TestEnv::Libc, TestEnv::Shadow],
{
    let r = EnvSet { libc: true, shadow: true };
    assert(r@ =~= set![TestEnv::Libc, TestEnv::Shadow]);
    r
}

/// The set of the native target alone.
pub fn libc_envs() -> (r: EnvSet)
    ensures
        r@ == set![TestEnv::Libc],
{
    let r = EnvSet { libc: true, shadow: false };
    assert(r@ =~= set![TestEnv::Libc]);
    r
}

/// The registry of pipe cases, in order, each with the targets under which
/// it is expected to pass; the bodies are given by the caller.
pub fn get_tests<B>(
    pipe: B,
    read_write: B,
    large_read_write: B,
    read_write_empty: B,
    dup: B,
    write_to_read_end: B,
    read_from_write_end: B,
) -> (r: Vec<ShadowTest<B>>)
    ensures
        r@.len() == 7,
        r@[0].spec_name() == "test_pipe"@ && r@[0].spec_func() == pipe,
        r@[1].spec_name() == "test_read_write"@ && r@[1].spec_func() == read_write,
        r@[2].spec_name() == "test_large_read_write"@ && r@[2].spec_func() == large_read_write,
        r@[3].spec_name() == "test_read_write_empty"@ && r@[3].spec_func() == read_write_empty,
        r@[4].spec_name() == "test_dup"@ && r@[4].spec_func() == dup,
        r@[5].spec_name() == "test_write_to_read_end"@ && r@[5].spec_func() == write_to_read_end,
        r@[6].spec_name() == "test_read_from_write_end"@ && r@[6].spec_func() == read_from_write_end,
        forall|i: int| 0 <= i < 4 ==> #[trigger] r@[i].spec_passing() == set![TestEnv::Libc, TestEnv::Shadow],
        forall|i: int| 4 <= i < 7 ==> #[trigger] r@[i].spec_passing() == set![TestEnv::Libc],
{
    let mut r: Vec<ShadowTest<B>> = Vec::new();
    r.push(ShadowTest::new("test_pipe", pipe, both_envs()));
    r.push(ShadowTest::new("test_read_write", read_write, both_envs()));
    r.push(ShadowTest::new("test_large_read_write", large_read_write, both_envs()));
    r.push(ShadowTest::new("test_read_write_empty", read_write_empty, both_envs()));
    r.push(ShadowTest::new("test_dup", dup, libc_envs()));
    r.push(ShadowTest::new("test_write_to_read_end", write_to_read_end, libc_envs()));
    r.push(ShadowTest::new("test_read_from_write_end", read_from_write_end, libc_envs()));
    r
}

} // verus!
