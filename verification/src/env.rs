//! The environment assembler: an ordered association map of environment
//! variables with unique keys, and the construction of the process
//! environment for the build command.  Construction begins from the
//! inherited environment and only fills in compiler identifiers that are
//! absent — a caller-provided value is never overwritten.

use vstd::prelude::*;

verus! {

use vstd::string::StringExecFns;
use crate::plan::ExtensionPoint;
use crate::plan::PlanError;
use crate::plan::TargetPlan;
use crate::plan::TargetPlanView;
use crate::text::contains_seq;
use crate::text::str_contains;
use crate::text::str_eq;

/// First-match lookup in an association list of environment variables.
pub open spec fn env_lookup(s: Seq<(Seq<char>, Seq<char>)>, k: Seq<char>) -> Option<Seq<char>>
    decreases s.len(),
{
    if s.len() == 0 {
        None
    } else if s[0].0 == k {
        Some(s[0].1)
    } else {
        env_lookup(s.drop_first(), k)
    }
}

/// Set a variable only if it is absent.
pub open spec fn env_setdefault(
    s: Seq<(Seq<char>, Seq<char>)>,
    k: Seq<char>,
    v: Seq<char>,
) -> Seq<(Seq<char>, Seq<char>)> {
    if env_lookup(s, k) is Some {
        s
    } else {
        s.push((k, v))
    }
}

/// A lookup skips any prefix free of the key.
proof fn lemma_env_lookup_skip(s: Seq<(Seq<char>, Seq<char>)>, k: Seq<char>, i: int)
    requires
        0 <= i <= s.len(),
        forall|j: int| 0 <= j < i ==> (#[trigger] s[j]).0 != k,
    ensures
        env_lookup(s, k) == env_lookup(s.skip(i), k),
    decreases i,
{
    if i > 0 {
        assert(s[0].0 != k);
        lemma_env_lookup_skip(s.drop_first(), k, i - 1);
        assert(s.drop_first().skip(i - 1) =~= s.skip(i));
    } else {
        assert(s.skip(0) =~= s);
    }
}

/// An absent key is absent at every position.
proof fn lemma_env_lookup_none(s: Seq<(Seq<char>, Seq<char>)>, k: Seq<char>)
    requires
        env_lookup(s, k) is None,
    ensures
        forall|j: int| 0 <= j < s.len() ==> (#[trigger] s[j]).0 != k,
    decreases s.len(),
{
    if s.len() > 0 {
        lemma_env_lookup_none(s.drop_first(), k);
        assert forall|j: int| 0 <= j < s.len() implies (#[trigger] s[j]).0 != k by {
            if j > 0 {
                assert(s.drop_first()[j - 1] == s[j]);
            }
        }
    }
}

/// How a lookup behaves after appending one entry at the back.
pub proof fn lemma_env_lookup_push(
    s: Seq<(Seq<char>, Seq<char>)>,
    p: (Seq<char>, Seq<char>),
    k: Seq<char>,
)
    ensures
        env_lookup(s.push(p), k) == (if env_lookup(s, k) is Some {
            env_lookup(s, k)
        } else if p.0 == k {
            Some(p.1)
        } else {
            None
        }),
    decreases s.len(),
{
    if s.len() == 0 {
        assert(s.push(p)[0] == p);
        assert(s.push(p).drop_first() =~= Seq::<(Seq<char>, Seq<char>)>::empty());
    } else {
        assert(s.push(p)[0] == s[0]);
        lemma_env_lookup_push(s.drop_first(), p, k);
        assert(s.push(p).drop_first() =~= s.drop_first().push(p));
    }
}

/// An ordered environment map whose keys are unique.
#[derive(Debug)]
pub struct EnvMap {
    entries: Vec<(String, String)>,
}

impl View for EnvMap {
    type V = Seq<(Seq<char>, Seq<char>)>;

    closed spec fn view(&self) -> Seq<(Seq<char>, Seq<char>)> {
        self.entries.deep_view()
    }
}

impl EnvMap {
    /// No key appears twice.  Constructors establish this and
    /// `insert_default` preserves it.
    pub open spec fn wf(&self) -> bool {
        forall|i: int, j: int|
            0 <= i < j < self@.len() ==> (#[trigger] self@[i]).0 != (#[trigger] self@[j]).0
    }

    /// The empty environment.
    pub fn new() -> (r: EnvMap)
        ensures
            r@ == Seq::<(Seq<char>, Seq<char>)>::empty(),
            r.wf(),
    {
        let r = EnvMap { entries: Vec::new() };
        proof {
            assert(r@ =~= Seq::<(Seq<char>, Seq<char>)>::empty());
        }
        r
    }

    /// The entries, in insertion order.
    pub fn pairs(&self) -> (r: &Vec<(String, String)>)
        ensures
            r.deep_view() == self@,
    {
        &self.entries
    }

    /// Find the index holding `key`, if any.
    fn find(&self, key: &str) -> (r: Option<usize>)
        ensures
            match r {
                Some(i) => i < self@.len() && self@[i as int].0 == key@ && env_lookup(self@, key@)
                    == Some(self@[i as int].1),
                None => env_lookup(self@, key@) is None,
            },
    {
        let mut i: usize = 0;
        while i < self.entries.len()
            invariant
                0 <= i <= self.entries.len(),
                self@.len() == self.entries.len(),
                forall|j: int| 0 <= j < i ==> (#[trigger] self@[j]).0 != key@,
            decreases self.entries.len() - i,
        {
            if str_eq(self.entries[i].0.as_str(), key) {
                proof {
                    lemma_env_lookup_skip(self@, key@, i as int);
                    assert(self@.skip(i as int)[0] == self@[i as int]);
                }
                return Some(i);
            }
            i = i + 1;
        }
        proof {
            lemma_env_lookup_skip(self@, key@, self@.len() as int);
            assert(self@.skip(self@.len() as int) =~= Seq::<(Seq<char>, Seq<char>)>::empty());
        }
        None
    }

    /// The value of `key`, when it is set.
    pub fn get(&self, key: &str) -> (r: Option<&String>)
        ensures
            match r {
                Some(v) => env_lookup(self@, key@) == Some(v@),
                None => env_lookup(self@, key@) is None,
            },
    {
        match self.find(key) {
            Some(i) => Some(&self.entries[i].1),
            None => None,
        }
    }

    /// Whether `key` is set.
    pub fn contains_key(&self, key: &str) -> (r: bool)
        ensures
            r == (env_lookup(self@, key@) is Some),
    {
        match self.find(key) {
            Some(_) => true,
            None => false,
        }
    }

    /// Set `key` to `value` only if it is absent; a present value is never
    /// overwritten.
    pub fn insert_default(&mut self, key: String, value: String)
        requires
            old(self).wf(),
        ensures
            final(self)@ == env_setdefault(old(self)@, key@, value@),
            final(self).wf(),
    {
        match self.find(key.as_str()) {
            Some(_) => {},
            None => {
                proof {
                    lemma_env_lookup_none(self@, key@);
                }
                let ghost prev = self@;
                self.entries.push((key, value));
                proof {
                    assert(self@ =~= prev.push((key@, value@)));
                }
            },
        }
    }

    /// Build an environment from inherited pairs, first occurrence of each
    /// key winning.
    pub fn from_pairs(pairs: Vec<(String, String)>) -> (r: EnvMap)
        ensures
            r@ == spec_from_pairs(pairs.deep_view()),
            r.wf(),
    {
        let mut r = EnvMap::new();
        let mut i: usize = 0;
        proof {
            assert(r@ =~= spec_from_pairs(pairs.deep_view().subrange(0, 0)));
        }
        while i < pairs.len()
            invariant
                0 <= i <= pairs.len(),
                pairs.deep_view().len() == pairs.len(),
                r@ == spec_from_pairs(pairs.deep_view().subrange(0, i as int)),
                r.wf(),
            decreases pairs.len() - i,
        {
            let (k, v) = (pairs[i].0.clone(), pairs[i].1.clone());
            r.insert_default(k, v);
            proof {
                let pv = pairs.deep_view();
                assert(pv.subrange(0, i + 1 as int).drop_last() =~= pv.subrange(0, i as int));
                assert(pv.subrange(0, i + 1 as int).last() == pv[i as int]);
            }
            i = i + 1;
        }
        proof {
            assert(pairs.deep_view().subrange(0, pairs.len() as int) =~= pairs.deep_view());
        }
        r
    }
}

/// The environment obtained by defaulting each pair in order.
pub open spec fn spec_from_pairs(pairs: Seq<(Seq<char>, Seq<char>)>) -> Seq<
    (Seq<char>, Seq<char>),
>
    decreases pairs.len(),
{
    if pairs.len() == 0 {
        Seq::empty()
    } else {
        env_setdefault(
            spec_from_pairs(pairs.drop_last()),
            pairs.last().0,
            pairs.last().1,
        )
    }
}

/// The environment construction behind `build_env`: the platform checks in
/// their fixed order, then compiler defaults for identifiers not already
/// present.
pub open spec fn spec_build_env(
    env: Seq<(Seq<char>, Seq<char>)>,
    plan: TargetPlanView,
    host: Seq<char>,
) -> Result<Seq<(Seq<char>, Seq<char>)>, PlanError> {
    let target_triple = match plan.target {
        Some(t) => t,
        None => host,
    };
    if contains_seq(host, "apple-darwin"@) && target_triple == host {
        Err(PlanError::Unimplemented(ExtensionPoint::MacosHostFlags))
    } else if contains_seq(host, "windows"@) {
        Err(PlanError::Unimplemented(ExtensionPoint::WindowsHost))
    } else if host != target_triple && contains_seq(target_triple, "windows"@) {
        Err(PlanError::Unimplemented(ExtensionPoint::WindowsCross))
    } else if plan.uwp {
        Err(PlanError::Unimplemented(ExtensionPoint::UwpEnvironment))
    } else if contains_seq(target_triple, "windows"@) {
        Err(PlanError::Unimplemented(ExtensionPoint::WindowsGstreamer))
    } else if plan.android {
        Err(PlanError::Unimplemented(ExtensionPoint::AndroidEnvironment))
    } else {
        let e1 = env_setdefault(env, "CC"@, "clang"@);
        let e2 = env_setdefault(e1, "CXX"@, "clang++"@);
        Ok(e2)
    }
}

/// Build the process environment for the planned target: start from the
/// inherited environment, reject combinations that need an unpopulated
/// platform block, and default the compiler identifiers.
pub fn build_env(inherited: EnvMap, plan: &TargetPlan, host: &str) -> (r: Result<EnvMap, PlanError>)
    requires
        inherited.wf(),
    ensures
        match r {
            Ok(e) => e.wf() && spec_build_env(inherited@, plan@, host@) == Ok::<
                Seq<(Seq<char>, Seq<char>)>,
                PlanError,
            >(e@),
            Err(err) => spec_build_env(inherited@, plan@, host@) == Err::<
                Seq<(Seq<char>, Seq<char>)>,
                PlanError,
            >(err),
        },
{
    let target_triple: &str = match &plan.target {
        Some(t) => t.as_str(),
        None => host,
    };
    if str_contains(host, "apple-darwin") && str_eq(target_triple, host) {
        return Err(PlanError::Unimplemented(ExtensionPoint::MacosHostFlags));
    }
    if str_contains(host, "windows") {
        return Err(PlanError::Unimplemented(ExtensionPoint::WindowsHost));
    }
    if !str_eq(host, target_triple) && str_contains(target_triple, "windows") {
        return Err(PlanError::Unimplemented(ExtensionPoint::WindowsCross));
    }
    if plan.uwp {
        return Err(PlanError::Unimplemented(ExtensionPoint::UwpEnvironment));
    }
    if str_contains(target_triple, "windows") {
        return Err(PlanError::Unimplemented(ExtensionPoint::WindowsGstreamer));
    }
    if plan.android {
        return Err(PlanError::Unimplemented(ExtensionPoint::AndroidEnvironment));
    }
    let mut env = inherited;
    env.insert_default(String::from_str("CC"), String::from_str("clang"));
    env.insert_default(String::from_str("CXX"), String::from_str("clang++"));
    Ok(env)
}

/// A successful environment construction never overwrites a variable that
/// the inherited environment already holds.
pub proof fn lemma_env_never_overwrites(
    env: Seq<(Seq<char>, Seq<char>)>,
    plan: TargetPlanView,
    host: Seq<char>,
    k: Seq<char>,
)
    requires
        spec_build_env(env, plan, host) is Ok,
        env_lookup(env, k) is Some,
    ensures
        env_lookup(spec_build_env(env, plan, host)->Ok_0, k) == env_lookup(env, k),
{
    let e1 = env_setdefault(env, "CC"@, "clang"@);
    if env_lookup(env, "CC"@) is None {
        lemma_env_lookup_push(env, ("CC"@, "clang"@), k);
    }
    if env_lookup(e1, "CXX"@) is None {
        lemma_env_lookup_push(e1, ("CXX"@, "clang++"@), k);
    }
}

} // verus!
