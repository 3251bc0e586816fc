//! The versions of a kernel, one for each tier, and the choice among them.
//!
//! A kernel is compiled once for each tier of a list, in order of priority, and once
//! more without any feature, the default. At run time the first tier of the running
//! architecture whose features the hardware has is taken. Where the build already
//! switches on all features of the best tier of its architecture, or the list has no
//! tier for it, the default is called without asking the hardware.

use vstd::prelude::*;
use vstd::string::StringExecFns;
use crate::target::{all_known, architecture_class, covers, enabled, names_of, Target};

verus! {

/// The name of the version of the function `ident` for a tier, or of its default
/// version where there is no tier or the tier asks for no feature.
pub open spec fn version_name(ident: Seq<char>, target: Option<&Target>) -> Seq<char> {
    match target {
        Some(t) => if t.features@.len() > 0 {
            ident + "_"@ + t.features_text() + "_version"@
        } else {
            ident + "_default_version"@
        },
        None => ident + "_default_version"@,
    }
}

/// Computes [`version_name`].
pub fn feature_fn_name(ident: &str, target: Option<&Target>) -> (r: String)
    ensures
        r@ == version_name(ident@, target),
{
    if let Some(target) = target {
        if target.has_features_specified() {
            let mut name = String::from_str(ident);
            name.append("_");
            let features = target.features_string();
            name.append(features.as_str());
            name.append("_version");
            return name;
        }
    }
    // A default version has no tier of its own.
    let mut name = String::from_str(ident);
    name.append("_default_version");
    name
}

/// Whether `name` is among `pool`.
pub fn has_name(pool: &Vec<String>, name: &String) -> (r: bool)
    ensures
        r == names_of(pool@).contains(name@),
{
    let mut i: usize = 0;
    while i < pool.len()
        invariant
            i <= pool.len(),
            forall|j: int| 0 <= j < i ==> names_of(pool@)[j] != name@,
        decreases pool.len() - i,
    {
        if pool[i] == *name {
            assert(names_of(pool@)[i as int] == name@);
            return true;
        }
        i = i + 1;
    }
    false
}

/// Whether every feature of the tier is among `pool`.
pub fn has_all_features(target: &Target, pool: &Vec<String>) -> (r: bool)
    ensures
        r == covers(names_of(pool@), names_of(target.features@)),
{
    let mut i: usize = 0;
    while i < target.features.len()
        invariant
            i <= target.features.len(),
            forall|j: int|
                0 <= j < i ==> names_of(pool@).contains(#[trigger] names_of(target.features@)[j]),
        decreases target.features.len() - i,
    {
        if !has_name(pool, &target.features[i]) {
            assert(names_of(target.features@)[i as int] == target.features@[i as int]@);
            return false;
        }
        assert(names_of(target.features@)[i as int] == target.features@[i as int]@);
        i = i + 1;
    }
    true
}

/// A tier can run: it asks for features, it is for the running architecture, and the
/// hardware has all its features.
pub open spec fn eligible(target: Target, architecture: Seq<char>, detected: Seq<Seq<char>>) -> bool {
    &&& target.features@.len() > 0
    &&& target.architecture@ == architecture
    &&& covers(detected, names_of(target.features@))
}

/// One version of a kernel: its name, the tier it is compiled for (none for the
/// default), and the features of the tier joined by commas.
#[derive(Debug)]
pub struct Version {
    pub name: String,
    pub target: Option<usize>,
    pub features: String,
}

/// The kernel `name` with the tiers it is compiled for, best first.
#[derive(Debug)]
pub struct Dispatcher {
    pub targets: Vec<Target>,
    pub name: String,
}

impl Dispatcher {
    /// Tier `i` is for `architecture` and no earlier one is.
    pub open spec fn is_best(self, i: int, architecture: Seq<char>) -> bool {
        &&& 0 <= i < self.targets@.len()
        &&& self.targets@[i].architecture@ == architecture
        &&& forall|j: int| 0 <= j < i ==> (#[trigger] self.targets@[j]).architecture@ != architecture
    }

    /// Tier `i` is the first that can run.
    pub open spec fn is_selected(
        self,
        i: int,
        architecture: Seq<char>,
        detected: Seq<Seq<char>>,
    ) -> bool {
        &&& 0 <= i < self.targets@.len()
        &&& eligible(self.targets@[i], architecture, detected)
        &&& forall|j: int|
            0 <= j < i ==> !eligible(#[trigger] self.targets@[j], architecture, detected)
    }

    /// The versions of the kernel: one for each tier, in the order of the list, then
    /// the default.
    pub fn feature_fns(&self) -> (r: Vec<Version>)
        ensures
            r.len() == self.targets.len() + 1,
            forall|i: int|
                0 <= i < self.targets.len() ==> {
                    &&& (#[trigger] r[i]).name@ == version_name(self.name@, Some(&self.targets[i]))
                    &&& r[i].target == Some(i as usize)
                    &&& r[i].features@ == crate::target::joined(
                        names_of(self.targets[i].features@),
                        seq![','],
                    )
                },
            r[self.targets.len() as int].name@ == version_name(self.name@, None),
            r[self.targets.len() as int].target.is_none(),
            r[self.targets.len() as int].features@ == Seq::<char>::empty(),
    {
        let mut versions: Vec<Version> = Vec::new();
        let mut i: usize = 0;
        while i < self.targets.len()
            invariant
                i <= self.targets.len(),
                versions.len() == i,
                forall|j: int|
                    0 <= j < i ==> {
                        &&& (#[trigger] versions[j]).name@ == version_name(
                            self.name@,
                            Some(&self.targets[j]),
                        )
                        &&& versions[j].target == Some(j as usize)
                        &&& versions[j].features@ == crate::target::joined(
                            names_of(self.targets[j].features@),
                            seq![','],
                        )
                    },
            decreases self.targets.len() - i,
        {
            let target = &self.targets[i];
            versions.push(
                Version {
                    name: feature_fn_name(self.name.as_str(), Some(target)),
                    target: Some(i),
                    features: target.features_list(),
                },
            );
            i = i + 1;
        }
        versions.push(
            Version {
                name: feature_fn_name(self.name.as_str(), None),
                target: None,
                features: String::new(),
            },
        );
        versions
    }

    /// The tier whose version runs on hardware of `architecture` that has the features
    /// `detected`: the first tier that asks for features, is for the architecture and
    /// finds all its features. `None` where there is no such tier: the default runs.
    pub fn select(&self, architecture: &str, detected: &Vec<String>) -> (r: Option<usize>)
        ensures
            match r {
                Some(i) => self.is_selected(i as int, architecture@, names_of(detected@)),
                None => forall|j: int|
                    0 <= j < self.targets@.len() ==> !eligible(
                        #[trigger] self.targets@[j],
                        architecture@,
                        names_of(detected@),
                    ),
            },
    {
        let wanted = String::from_str(architecture);
        let mut i: usize = 0;
        while i < self.targets.len()
            invariant
                i <= self.targets.len(),
                wanted@ == architecture@,
                forall|j: int|
                    0 <= j < i ==> !eligible(
                        #[trigger] self.targets@[j],
                        architecture@,
                        names_of(detected@),
                    ),
            decreases self.targets.len() - i,
        {
            let target = &self.targets[i];
            if target.has_features_specified() && target.architecture == wanted
                && has_all_features(target, detected) {
                return Some(i);
            }
            i = i + 1;
        }
        None
    }

    /// The best tier for an architecture: the first of the list that is for it.
    pub fn best_target(&self, architecture: &str) -> (r: Option<usize>)
        ensures
            match r {
                Some(i) => self.is_best(i as int, architecture@),
                None => forall|j: int|
                    0 <= j < self.targets@.len() ==> (#[trigger] self.targets@[j]).architecture@
                        != architecture@,
            },
    {
        let wanted = String::from_str(architecture);
        let mut i: usize = 0;
        while i < self.targets.len()
            invariant
                i <= self.targets.len(),
                wanted@ == architecture@,
                forall|j: int|
                    0 <= j < i ==> (#[trigger] self.targets@[j]).architecture@ != architecture@,
            decreases self.targets.len() - i,
        {
            if self.targets[i].architecture == wanted {
                return Some(i);
            }
            i = i + 1;
        }
        None
    }

    /// Whether a build for `architecture` with the features `enabled` switched on
    /// everywhere calls the default version directly: the list has no tier for the
    /// architecture, or the build has all features of the best tier for it.
    pub fn skips_dispatch(&self, architecture: &str, enabled: &Vec<String>) -> (r: bool)
        ensures
            r == (forall|i: int|
                self.is_best(i, architecture@) ==> covers(
                    names_of(enabled@),
                    names_of(self.targets@[i].features@),
                )),
    {
        match self.best_target(architecture) {
            Some(i) => {
                let r = has_all_features(&self.targets[i], enabled);
                assert(self.is_best(i as int, architecture@));
                assert forall|k: int| self.is_best(k, architecture@) implies k == i by {
                    if k < i {
                        assert(self.targets@[k].architecture@ != architecture@);
                    } else if i < k {
                        assert(self.targets@[i as int].architecture@ != architecture@);
                    }
                }
                r
            },
            None => true,
        }
    }
}

/// Whether `target` is the tier of `arch` with the features `asked` and all that they
/// imply.
pub open spec fn is_tier(target: Target, arch: Seq<char>, asked: Seq<Seq<char>>) -> bool {
    &&& target.architecture@ == arch
    &&& target.well_formed()
    &&& names_of(target.features@).to_set() == enabled(architecture_class(arch), asked)
    &&& covers(names_of(target.features@), asked)
}

/// Whether the database has all features that the tiers of [`make_multiversioned_fn`]
/// ask for.
pub open spec fn tiers_known() -> bool {
    &&& all_known(architecture_class("x86_64"@), seq!["avx2"@, "fma"@])
    &&& all_known(architecture_class("x86_64"@), seq!["sse4.2"@])
    &&& all_known(architecture_class("x86"@), seq!["avx2"@, "fma"@])
    &&& all_known(architecture_class("x86"@), seq!["sse4.2"@])
    &&& all_known(architecture_class("x86"@), seq!["sse2"@])
    &&& all_known(architecture_class("aarch64"@), seq!["neon"@])
}

/// The dispatcher of the kernel `name` over the tiers that every kernel is compiled
/// for, best first: on x86-64 AVX2 with FMA, then SSE4.2; on x86 AVX2 with FMA, then
/// SSE4.2, then SSE2; on AArch64 NEON. `None` where the database lacks one of these
/// features.
pub fn make_multiversioned_fn(name: &str) -> (r: Option<Dispatcher>)
    ensures
        r.is_some() == tiers_known(),
        r matches Some(d) ==> {
            &&& d.name@ == name@
            &&& d.targets@.len() == 6
            &&& is_tier(d.targets@[0], "x86_64"@, seq!["avx2"@, "fma"@])
            &&& is_tier(d.targets@[1], "x86_64"@, seq!["sse4.2"@])
            &&& is_tier(d.targets@[2], "x86"@, seq!["avx2"@, "fma"@])
            &&& is_tier(d.targets@[3], "x86"@, seq!["sse4.2"@])
            &&& is_tier(d.targets@[4], "x86"@, seq!["sse2"@])
            &&& is_tier(d.targets@[5], "aarch64"@, seq!["neon"@])
        },
{
    let wide: [&str; 2] = ["avx2", "fma"];
    let sse42: [&str; 1] = ["sse4.2"];
    let sse2: [&str; 1] = ["sse2"];
    let neon: [&str; 1] = ["neon"];
    proof {
        assert(crate::target::texts_of(wide@) =~= seq!["avx2"@, "fma"@]);
        assert(crate::target::texts_of(sse42@) =~= seq!["sse4.2"@]);
        assert(crate::target::texts_of(sse2@) =~= seq!["sse2"@]);
        assert(crate::target::texts_of(neon@) =~= seq!["neon"@]);
    }
    let mut targets: Vec<Target> = Vec::new();
    match Target::try_new("x86_64", wide.as_slice()) {
        Some(t) => targets.push(t),
        None => {
            return None;
        },
    }
    match Target::try_new("x86_64", sse42.as_slice()) {
        Some(t) => targets.push(t),
        None => {
            return None;
        },
    }
    match Target::try_new("x86", wide.as_slice()) {
        Some(t) => targets.push(t),
        None => {
            return None;
        },
    }
    match Target::try_new("x86", sse42.as_slice()) {
        Some(t) => targets.push(t),
        None => {
            return None;
        },
    }
    match Target::try_new("x86", sse2.as_slice()) {
        Some(t) => targets.push(t),
        None => {
            return None;
        },
    }
    match Target::try_new("aarch64", neon.as_slice()) {
        Some(t) => targets.push(t),
        None => {
            return None;
        },
    }
    Some(Dispatcher { targets, name: String::from_str(name) })
}

/// The lane width of an evaluation: the width that the selected tier suggests, or one,
/// the width of scalar evaluation, where it suggests none.
pub fn lane_width(suggested: Option<usize>) -> (r: usize)
    ensures
        r == match suggested {
            Some(n) => n,
            None => 1,
        },
{
    match suggested {
        Some(n) => n,
        None => 1,
    }
}

} // verus!
