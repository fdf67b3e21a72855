//! Quality profile definitions.

use vstd::prelude::*;
use crate::text::str_eq;

verus! {

/// The level of a quality profile.
#[derive(Clone, Copy, Debug, PartialEq, Eq, Structural)]
pub enum ProfileLevel {
    /// Minimal gates, for rapid prototyping.
    Minimal,
    /// Standard gates, for production-ready features.
    Standard,
    /// Comprehensive gates, for critical features.
    Comprehensive,
}

impl Default for ProfileLevel {
    fn default() -> (r: Self)
        ensures
            r == ProfileLevel::Standard,
    {
        ProfileLevel::Standard
    }
}

/// Documentation requirements.
#[derive(Clone, Debug, Default)]
pub struct DocumentationConfig {
    pub required: bool,
    pub readme: bool,
    pub inline_comments: bool,
}

/// Testing requirements.
#[derive(Clone, Debug, Default)]
pub struct TestingConfig {
    pub unit_tests: bool,
    pub integration_tests: bool,
    /// Minimum code coverage percentage (0-100).
    pub coverage_threshold: u8,
}

/// CI requirements.
#[derive(Clone, Debug, Default)]
pub struct CiConfig {
    pub required: bool,
    pub format_check: bool,
    pub lint_check: bool,
}

/// Security requirements.
#[derive(Clone, Debug, Default)]
pub struct SecurityConfig {
    pub cargo_audit: bool,
    pub cargo_deny: bool,
    /// Static application security testing.
    pub sast: bool,
}

/// Blog generation settings.
#[derive(Clone, Debug, Default)]
pub struct BlogConfig {
    pub generate: bool,
    pub template: Option<String>,
}

/// A quality profile with all its sections.
#[derive(Clone, Debug, Default)]
pub struct Profile {
    pub description: String,
    pub documentation: DocumentationConfig,
    pub testing: TestingConfig,
    pub ci: CiConfig,
    pub security: SecurityConfig,
    pub blog: BlogConfig,
}

/// The name under which a level's profile is stored.
pub open spec fn level_name(level: ProfileLevel) -> Seq<char> {
    match level {
        ProfileLevel::Minimal => "minimal"@,
        ProfileLevel::Standard => "standard"@,
        ProfileLevel::Comprehensive => "comprehensive"@,
    }
}

/// `k` is the first entry named `name`.
pub open spec fn first_named(profiles: Seq<(String, Profile)>, name: Seq<char>, k: int) -> bool {
    &&& 0 <= k < profiles.len()
    &&& profiles[k].0@ == name
    &&& forall|j: int| 0 <= j < k ==> (#[trigger] profiles[j]).0@ != name
}

/// Some entry is named `n`.
pub open spec fn has_name(profiles: Seq<(String, Profile)>, n: Seq<char>) -> bool {
    exists|k: int| 0 <= k < profiles.len() && (#[trigger] profiles[k]).0@ == n
}

/// All quality profiles, by name.
#[derive(Clone, Debug, Default)]
pub struct QualityConfig {
    /// (name, profile) pairs. Under `wf` each name occurs once; `insert`
    /// keeps it so.
    pub profiles: Vec<(String, Profile)>,
}

impl QualityConfig {
    /// Each profile name occurs at most once.
    pub open spec fn wf(&self) -> bool {
        forall|i: int, j: int|
            0 <= i < self.profiles@.len() && 0 <= j < self.profiles@.len() && i != j
                ==> (#[trigger] self.profiles@[i]).0@ != (#[trigger] self.profiles@[j]).0@
    }

    /// A configuration without profiles.
    pub fn new() -> (r: Self)
        ensures
            r.wf(),
            r.profiles@.len() == 0,
    {
        QualityConfig { profiles: Vec::new() }
    }

    /// Store `profile` under `name`, replacing the profile stored under that
    /// name if there is one.
    pub fn insert(&mut self, name: String, profile: Profile)
        requires
            old(self).wf(),
        ensures
            final(self).wf(),
            exists|k: int|
                0 <= k < final(self).profiles@.len() && (#[trigger] final(self).profiles@[k]).0@
                    == name@ && final(self).profiles@[k].1 == profile,
            forall|n: Seq<char>|
                n != name@ ==> (#[trigger] has_name(final(self).profiles@, n) <==> has_name(
                    old(self).profiles@,
                    n,
                )),
            forall|k: int|
                0 <= k < old(self).profiles@.len() && (#[trigger] old(self).profiles@[k]).0@
                    != name@ ==> final(self).profiles@[k] == old(self).profiles@[k],
    {
        let mut k: usize = 0;
        while k < self.profiles.len()
            invariant
                k <= self.profiles@.len(),
                old(self).wf(),
                self.profiles == old(self).profiles,
                forall|j: int| 0 <= j < k ==> (#[trigger] self.profiles@[j]).0@ != name@,
            decreases self.profiles.len() - k,
        {
            if str_eq(self.profiles[k].0.as_str(), name.as_str()) {
                let ghost name_view = name@;
                assert(old(self).profiles@[k as int].0@ == name_view);
                self.profiles.set(k, (name, profile));
                assert(self.profiles@[k as int].0@ == name_view);
                proof {
                    assert forall|i: int, j: int|
                        0 <= i < self.profiles@.len() && 0 <= j < self.profiles@.len() && i != j
                            implies (#[trigger] self.profiles@[i]).0@ != (
                        #[trigger] self.profiles@[j]).0@ by {
                        if i != k && j != k {
                            assert(self.profiles@[i] == old(self).profiles@[i]);
                            assert(self.profiles@[j] == old(self).profiles@[j]);
                        } else if i == k {
                            assert(self.profiles@[j] == old(self).profiles@[j]);
                            assert(old(self).profiles@[j].0@ != old(self).profiles@[k as int].0@);
                        } else {
                            assert(self.profiles@[i] == old(self).profiles@[i]);
                            assert(old(self).profiles@[i].0@ != old(self).profiles@[k as int].0@);
                        }
                    }
                    assert(self.profiles@[k as int].0@ == name@);
                    assert forall|n: Seq<char>|
                        n != name@ implies ((has_name(self.profiles@, n))
                        <==> (has_name(old(self).profiles@, n))) by {
                        if has_name(self.profiles@, n) {
                            let m = choose|m: int|
                                0 <= m < self.profiles@.len() && (#[trigger] self.profiles@[m]).0@
                                    == n;
                            assert(self.profiles@[m] == old(self).profiles@[m]);
                        }
                        if has_name(old(self).profiles@, n) {
                            let m = choose|m: int|
                                0 <= m < old(self).profiles@.len() && (#[trigger] old(self).profiles@[m]).0@ == n;
                            assert(self.profiles@[m] == old(self).profiles@[m]);
                        }
                    }
                }
                return;
            }
            k += 1;
        }
        let ghost n0 = self.profiles@.len();
        self.profiles.push((name, profile));
        proof {
            assert forall|i: int, j: int|
                0 <= i < self.profiles@.len() && 0 <= j < self.profiles@.len() && i != j implies (
                #[trigger] self.profiles@[i]).0@ != (#[trigger] self.profiles@[j]).0@ by {
                if i < n0 {
                    assert(self.profiles@[i] == old(self).profiles@[i]);
                }
                if j < n0 {
                    assert(self.profiles@[j] == old(self).profiles@[j]);
                }
            }
            assert(self.profiles@[n0 as int].0@ == name@);
            assert forall|n: Seq<char>|
                n != name@ implies ((has_name(self.profiles@, n)) <==> (
                has_name(old(self).profiles@, n))) by {
                if has_name(self.profiles@, n) {
                    let m = choose|m: int|
                        0 <= m < self.profiles@.len() && (#[trigger] self.profiles@[m]).0@ == n;
                    assert(self.profiles@[m] == old(self).profiles@[m]);
                }
                if has_name(old(self).profiles@, n) {
                    let m = choose|m: int|
                        0 <= m < old(self).profiles@.len() && (#[trigger] old(self).profiles@[m]).0@
                            == n;
                    assert(self.profiles@[m] == old(self).profiles@[m]);
                }
            }
            assert forall|k: int|
                0 <= k < old(self).profiles@.len() && (#[trigger] old(self).profiles@[k]).0@
                    != name@ implies self.profiles@[k] == old(self).profiles@[k] by {}
        }
    }

    /// The profile stored for a level.
    pub fn get_profile(&self, level: ProfileLevel) -> (r: Option<&Profile>)
        ensures
            match r {
                Some(p) => exists|k: int|
                    first_named(self.profiles@, level_name(level), k) && self.profiles@[k].1
                        == *p,
                None => forall|j: int|
                    0 <= j < self.profiles@.len() ==> (#[trigger] self.profiles@[j]).0@
                        != level_name(level),
            },
    {
        let name = match level {
            ProfileLevel::Minimal => "minimal",
            ProfileLevel::Standard => "standard",
            ProfileLevel::Comprehensive => "comprehensive",
        };
        assert(name@ == level_name(level));
        let r = self.get_profile_by_name(name);
        proof {
            if let Some(p) = r {
                let k = choose|k: int| first_named(self.profiles@, name@, k) && self.profiles@[k].1 == *p;
                assert(first_named(self.profiles@, level_name(level), k));
            }
        }
        r
    }

    /// The profile stored under `name`.
    pub fn get_profile_by_name(&self, name: &str) -> (r: Option<&Profile>)
        ensures
            match r {
                Some(p) => exists|k: int|
                    first_named(self.profiles@, name@, k) && self.profiles@[k].1 == *p,
                None => forall|j: int|
                    0 <= j < self.profiles@.len() ==> (#[trigger] self.profiles@[j]).0@ != name@,
            },
    {
        let mut k: usize = 0;
        while k < self.profiles.len()
            invariant
                k <= self.profiles@.len(),
                forall|j: int| 0 <= j < k ==> (#[trigger] self.profiles@[j]).0@ != name@,
            decreases self.profiles.len() - k,
        {
            if str_eq(self.profiles[k].0.as_str(), name) {
                proof {
                    assert(first_named(self.profiles@, name@, k as int));
                }
                return Some(&self.profiles[k].1);
            }
            k += 1;
        }
        None
    }

    /// The names of all profiles, in stored order; under `wf` no name occurs
    /// twice.
    pub fn profile_names(&self) -> (r: Vec<String>)
        ensures
            r@.len() == self.profiles@.len(),
            forall|j: int| 0 <= j < r@.len() ==> (#[trigger] r@[j])@ == self.profiles@[j].0@,
            self.wf() ==> forall|i: int, j: int|
                0 <= i < r@.len() && 0 <= j < r@.len() && i != j ==> (#[trigger] r@[i])@ != (
                #[trigger] r@[j])@,
    {
        let mut r: Vec<String> = Vec::new();
        let mut k: usize = 0;
        while k < self.profiles.len()
            invariant
                k <= self.profiles@.len(),
                r@.len() == k,
                forall|j: int| 0 <= j < k ==> (#[trigger] r@[j])@ == self.profiles@[j].0@,
            decreases self.profiles.len() - k,
        {
            r.push(self.profiles[k].0.clone());
            k += 1;
        }
        proof {
            if self.wf() {
                assert forall|i: int, j: int|
                    0 <= i < r@.len() && 0 <= j < r@.len() && i != j implies (#[trigger] r@[i])@
                    != (#[trigger] r@[j])@ by {
                    assert(self.profiles@[i].0@ != self.profiles@[j].0@);
                }
            }
        }
        r
    }
}

} // verus!
