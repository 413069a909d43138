use vstd::prelude::*;

verus! {

/// An execution target against which a test case declares that it passes.
#[derive(Clone, Copy, Debug, PartialEq, Eq, Structural)]
pub enum TestEnv {
    /// The native operating system.
    Libc,
    /// The simulator that reimplements the system calls.
    Shadow,
}

/// A set of execution targets.
#[derive(Clone, Copy, Debug, PartialEq, Eq, Structural)]
pub struct EnvSet {
    /// Whether the native target is in the set.
    pub libc: bool,
    /// Whether the simulated target is in the set.
    pub shadow: bool,
}

impl View for EnvSet {
    type V = Set<TestEnv>;

    open spec fn view(&self) -> Set<TestEnv> {
        Set::new(|e: TestEnv| e == TestEnv::Libc && self.libc || e == TestEnv::Shadow && self.shadow)
    }
}

impl EnvSet {
    /// The set with no targets.
    pub fn empty() -> (r: EnvSet)
        ensures
            r@ == Set::<TestEnv>::empty(),
    {
        let r = EnvSet { libc: false, shadow: false };
        assert(r@ =~= Set::<TestEnv>::empty());
        r
    }

    /// The set that holds every given target.
    pub fn of(envs: &[TestEnv]) -> (r: EnvSet)
        ensures
            forall|e: TestEnv| r@.contains(e) <==> envs@.contains(e),
    {
        let mut r = EnvSet::empty();
        let mut i: usize = 0;
        while i < envs.len()
            invariant
                i <= envs@.len(),
                forall|e: TestEnv|
                    r@.contains(e) <==> exists|k: int| 0 <= k < i && #[trigger] envs@[k] == e,
            decreases envs@.len() - i,
        {
            r.insert(envs[i]);
            assert(envs@[i as int] == envs@[i as int]);
            i = i + 1;
        }
        assert forall|e: TestEnv| r@.contains(e) <==> envs@.contains(e) by {
            if r@.contains(e) {
                let k = choose|k: int| 0 <= k < envs@.len() && #[trigger] envs@[k] == e;
                assert(envs@.contains(e));
            }
        }
        r
    }

    /// Adds a target to the set.
    pub fn insert(&mut self, env: TestEnv)
        ensures
            final(self)@ == old(self)@.insert(env),
    {
        match env {
            TestEnv::Libc => self.libc = true,
            TestEnv::Shadow => self.shadow = true,
        }
        assert(final(self)@ =~= old(self)@.insert(env));
    }

    /// Whether the target belongs to the set.
    pub fn contains(&self, env: TestEnv) -> (r: bool)
        ensures
            r == self@.contains(env),
    {
        match env {
            TestEnv::Libc => self.libc,
            TestEnv::Shadow => self.shadow,
        }
    }
}

} // verus!
