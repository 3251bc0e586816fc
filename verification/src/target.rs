//! A hardware tier: an architecture and the target features that a version of a kernel
//! is compiled with. The database of features is that of the `target_features` crate.

use vstd::prelude::*;
use vstd::string::StringExecFns;

verus! {

/// A target of the `target_features` crate: an architecture and a set of features,
/// closed under what each feature implies. Opaque here; see [`enabled_in`] and
/// [`class_of`].
#[verifier::external_body]
pub struct FeatureSet {
    inner: target_features::Target,
}

/// The names of the features that are switched on in a target.
pub uninterp spec fn enabled_in(target: FeatureSet) -> Set<Seq<char>>;

/// The architecture of a target, as the number of its variant in the database.
pub uninterp spec fn class_of(target: FeatureSet) -> u8;

/// The architecture that the database knows under a name, as the number of its variant.
/// Names that it does not know share the variant for unsupported architectures.
pub uninterp spec fn architecture_class(name: Seq<char>) -> u8;

/// Whether the database has a feature of this name for the architecture.
pub uninterp spec fn known_feature(class: u8, feature: Seq<char>) -> bool;

/// The names of the features that asking for one feature switches on: the feature and
/// all that it implies.
pub uninterp spec fn switched_on(class: u8, feature: Seq<char>) -> Set<Seq<char>>;

/// `target_features::Target::new` on the result of
/// `target_features::Architecture::from_str`: a target of the architecture with that
/// name and no feature switched on.
#[verifier::external_body]
fn empty_target(architecture: &str) -> (r: FeatureSet)
    ensures
        class_of(r) == architecture_class(architecture@),
        enabled_in(r) == Set::<Seq<char>>::empty(),
{
    FeatureSet {
        inner: target_features::Target::new(target_features::Architecture::from_str(architecture)),
    }
}

/// `target_features::Feature::new`: whether the database has the feature for the
/// architecture of the target.
#[verifier::external_body]
fn knows_feature(target: &FeatureSet, feature: &str) -> (r: bool)
    ensures
        r == known_feature(class_of(*target), feature@),
{
    target_features::Feature::new(target.inner.architecture(), feature).is_ok()
}

/// `target_features::Target::with_feature_str`: the target with the feature and all
/// that it implies switched on as well, the feature itself among them. The architecture
/// stays. The outside function panics on a feature that the database does not have for
/// the architecture.
#[verifier::external_body]
fn with_feature(target: FeatureSet, feature: &str) -> (r: FeatureSet)
    requires
        known_feature(class_of(target), feature@),
    ensures
        class_of(r) == class_of(target),
        enabled_in(r) == enabled_in(target).union(switched_on(class_of(target), feature@)),
        enabled_in(r).contains(feature@),
{
    FeatureSet { inner: target.inner.with_feature_str(feature) }
}

/// `target_features::Target::features` with `target_features::Feature::name` of each
/// item: the names of the features that are switched on, each once.
#[verifier::external_body]
fn feature_names(target: &FeatureSet) -> (r: Vec<String>)
    ensures
        names_of(r@).no_duplicates(),
        names_of(r@).to_set() == enabled_in(*target),
{
    target.inner.features().map(|f| f.name().to_string()).collect()
}

/// `sort_unstable` of slices, on strings: the same strings in ascending order. Strings
/// are ordered by their code points, the first difference deciding.
#[verifier::external_body]
fn sort_names(names: &mut Vec<String>)
    ensures
        names_of(final(names)@).to_multiset() == names_of(old(names)@).to_multiset(),
        ascending(names_of(final(names)@)),
{
    names.sort_unstable();
}

/// `join` of slices, on strings: the strings one after the other with the separator
/// between each two.
#[verifier::external_body]
fn join_names(names: &Vec<String>, separator: &str) -> (r: String)
    ensures
        r@ == joined(names_of(names@), separator@),
{
    names.join(separator)
}

/// `str::replace` with a character as the pattern and nothing in its place: the text
/// without that character.
#[verifier::external_body]
fn remove_char(text: &str, unwanted: char) -> (r: String)
    ensures
        r@ == without(text@, unwanted),
{
    text.replace(unwanted, "")
}

/// The strings as sequences of characters.
pub open spec fn names_of(names: Seq<String>) -> Seq<Seq<char>> {
    names.map_values(|s: String| s@)
}

/// The string slices as sequences of characters.
pub open spec fn texts_of(texts: Seq<&str>) -> Seq<Seq<char>> {
    texts.map_values(|s: &str| s@)
}

/// `a` comes before `b` or is equal to it: at the first place where they differ `a` has
/// the lesser code point, or `a` ends there.
pub open spec fn lex_le(a: Seq<char>, b: Seq<char>) -> bool
    decreases a.len(),
{
    if a.len() == 0 {
        true
    } else if b.len() == 0 {
        false
    } else if a[0] != b[0] {
        (a[0] as u32) < (b[0] as u32)
    } else {
        lex_le(a.skip(1), b.skip(1))
    }
}

/// Every name comes before, or equals, all that follow it.
pub open spec fn ascending(names: Seq<Seq<char>>) -> bool {
    forall|i: int, j: int| 0 <= i < j < names.len() ==> lex_le(#[trigger] names[i], #[trigger] names[j])
}

/// The names one after the other with the separator between each two.
pub open spec fn joined(names: Seq<Seq<char>>, separator: Seq<char>) -> Seq<char>
    decreases names.len(),
{
    if names.len() == 0 {
        Seq::empty()
    } else if names.len() == 1 {
        names[0]
    } else {
        joined(names.drop_last(), separator) + separator + names.last()
    }
}

/// The text without the character `unwanted`.
pub open spec fn without(text: Seq<char>, unwanted: char) -> Seq<char> {
    text.filter(|c: char| c != unwanted)
}

/// The features that are switched on after asking for each of `features` in turn.
pub open spec fn enabled(class: u8, features: Seq<Seq<char>>) -> Set<Seq<char>>
    decreases features.len(),
{
    if features.len() == 0 {
        Set::empty()
    } else {
        enabled(class, features.drop_last()).union(switched_on(class, features.last()))
    }
}

/// Every one of `asked` is among `names`.
pub open spec fn covers(names: Seq<Seq<char>>, asked: Seq<Seq<char>>) -> bool {
    forall|i: int| 0 <= i < asked.len() ==> names.contains(#[trigger] asked[i])
}

/// Whether the database has every one of the features for the architecture.
pub open spec fn all_known(class: u8, features: Seq<Seq<char>>) -> bool {
    forall|i: int| 0 <= i < features.len() ==> known_feature(class, #[trigger] features[i])
}

/// The attribute that restricts an item to an architecture.
pub open spec fn arch_attribute(arch: Seq<char>) -> Seq<char> {
    "#[cfg(target_arch = \""@ + arch + "\")]"@
}

/// The attribute that compiles a function with a feature switched on.
pub open spec fn feature_attribute(feature: Seq<char>) -> Seq<char> {
    "#[target_feature(enable = \""@ + feature + "\")]"@
}

/// The attributes that switch on each of the features, in their order.
pub open spec fn feature_attributes(features: Seq<Seq<char>>) -> Seq<Seq<char>> {
    Seq::new(features.len(), |i: int| feature_attribute(features[i]))
}

/// The family of architectures whose macro detects features at run time.
pub open spec fn detection_family(arch: Seq<char>) -> Seq<char> {
    if arch == "x86_64"@ {
        "x86"@
    } else if arch == "risv64"@ {
        "riscv"@
    } else {
        arch
    }
}

/// The name of the macro that detects a feature of the architecture at run time.
pub open spec fn detection_macro(arch: Seq<char>) -> Seq<char> {
    "is_"@ + detection_family(arch) + "_feature_detected"@
}

/// The expression that is true where the hardware has every one of the features: a
/// conjunction that starts with `true` and asks the detection macro for each feature.
pub open spec fn detection_text(arch: Seq<char>, features: Seq<Seq<char>>) -> Seq<char>
    decreases features.len(),
{
    if features.len() == 0 {
        "true"@
    } else {
        detection_text(arch, features.drop_last()) + " && std::arch::"@ + detection_macro(arch)
            + "!(\""@ + features.last() + "\")"@
    }
}

/// The architecture with each feature behind it after a plus sign.
pub open spec fn literal_text(arch: Seq<char>, features: Seq<Seq<char>>) -> Seq<char>
    decreases features.len(),
{
    if features.len() == 0 {
        arch
    } else {
        literal_text(arch, features.drop_last()) + "+"@ + features.last()
    }
}

/// An architecture and the features of a tier.
#[derive(Clone, Debug, PartialEq, Eq)]
pub struct Target {
    pub architecture: String,
    pub features: Vec<String>,
}

impl Target {
    /// The features are in ascending order and none occurs twice.
    pub open spec fn well_formed(self) -> bool {
        &&& ascending(names_of(self.features@))
        &&& names_of(self.features@).no_duplicates()
    }

    /// The tier of an architecture with the given features and all that they imply, in
    /// ascending order.
    pub fn new(arch: &str, features: &[&str]) -> (r: Self)
        requires
            all_known(architecture_class(arch@), texts_of(features@)),
        ensures
            r.architecture@ == arch@,
            r.well_formed(),
            names_of(r.features@).to_set() == enabled(
                architecture_class(arch@),
                texts_of(features@),
            ),
            covers(names_of(r.features@), texts_of(features@)),
    {
        let ghost class = architecture_class(arch@);
        let ghost asked = texts_of(features@);
        let mut target = empty_target(arch);
        let mut i: usize = 0;
        assert(asked.take(0) =~= Seq::<Seq<char>>::empty());
        while i < features.len()
            invariant
                i <= features.len(),
                class == architecture_class(arch@),
                asked == texts_of(features@),
                all_known(class, asked),
                class_of(target) == class,
                enabled_in(target) == enabled(class, asked.take(i as int)),
                forall|j: int| 0 <= j < i ==> enabled_in(target).contains(#[trigger] asked[j]),
            decreases features.len() - i,
        {
            assert(asked[i as int] == features@[i as int]@);
            target = with_feature(target, features[i]);
            proof {
                assert(asked.take(i + 1).drop_last() =~= asked.take(i as int));
                assert(asked.take(i + 1).last() == asked[i as int]);
            }
            i = i + 1;
        }
        assert(asked.take(features.len() as int) =~= asked);
        let mut names = feature_names(&target);
        let ghost unsorted = names_of(names@);
        sort_names(&mut names);
        proof {
            let sorted = names_of(names@);
            unsorted.lemma_multiset_has_no_duplicates();
            sorted.lemma_multiset_has_no_duplicates_conv();
            unsorted.to_multiset_ensures();
            sorted.to_multiset_ensures();
            assert forall|a: Seq<char>| sorted.to_set().contains(a) == unsorted.to_set().contains(
                a,
            ) by {
                assert(sorted.contains(a) <==> sorted.to_multiset().count(a) > 0);
                assert(unsorted.contains(a) <==> unsorted.to_multiset().count(a) > 0);
            }
            assert(sorted.to_set() =~= unsorted.to_set());
            assert forall|j: int| 0 <= j < asked.len() implies sorted.contains(
                #[trigger] asked[j],
            ) by {
                assert(sorted.to_set().contains(asked[j]));
            }
        }
        Self { architecture: String::from_str(arch), features: names }
    }

    /// The tier of an architecture with the given features, if the database has all of
    /// them for the architecture.
    pub fn try_new(arch: &str, features: &[&str]) -> (r: Option<Self>)
        ensures
            r.is_some() == all_known(architecture_class(arch@), texts_of(features@)),
            r matches Some(t) ==> {
                &&& t.architecture@ == arch@
                &&& t.well_formed()
                &&& names_of(t.features@).to_set() == enabled(
                    architecture_class(arch@),
                    texts_of(features@),
                )
                &&& covers(names_of(t.features@), texts_of(features@))
            },
    {
        let ghost asked = texts_of(features@);
        let probe = empty_target(arch);
        let mut i: usize = 0;
        while i < features.len()
            invariant
                i <= features.len(),
                asked == texts_of(features@),
                class_of(probe) == architecture_class(arch@),
                forall|j: int| 0 <= j < i ==> known_feature(class_of(probe), #[trigger] asked[j]),
            decreases features.len() - i,
        {
            assert(asked[i as int] == features@[i as int]@);
            if !knows_feature(&probe, features[i]) {
                return None;
            }
            i = i + 1;
        }
        Some(Target::new(arch, features))
    }

    /// The name of the architecture.
    pub fn arch(&self) -> (r: &str)
        ensures
            r@ == self.architecture@,
    {
        self.architecture.as_str()
    }

    /// The features, in ascending order.
    pub fn features(&self) -> (r: &[String])
        ensures
            r@ == self.features@,
    {
        self.features.as_slice()
    }

    /// The features joined by underscores, without the dots that feature names may hold
    /// and names of functions may not.
    pub open spec fn features_text(self) -> Seq<char> {
        without(joined(names_of(self.features@), seq!['_']), '.')
    }

    /// The features joined by underscores, without dots, see [`Target::features_text`].
    pub fn features_string(&self) -> (r: String)
        ensures
            r@ == self.features_text(),
    {
        proof {
            reveal_strlit("_");
            assert("_"@ =~= seq!['_']);
        }
        let all = join_names(&self.features, "_");
        remove_char(all.as_str(), '.')
    }

    /// The features joined by commas.
    pub fn features_list(&self) -> (r: String)
        ensures
            r@ == joined(names_of(self.features@), seq![',']),
    {
        proof {
            reveal_strlit(",");
            assert(","@ =~= seq![',']);
        }
        join_names(&self.features, ",")
    }

    /// The attribute that restricts an item to the architecture of the tier.
    pub fn target_arch(&self) -> (r: String)
        ensures
            r@ == arch_attribute(self.architecture@),
    {
        let mut text = String::from_str("#[cfg(target_arch = \"");
        text.append(self.architecture.as_str());
        text.append("\")]");
        text
    }

    /// The attributes that compile a function with the features of the tier, one for
    /// each feature.
    pub fn target_feature(&self) -> (r: Vec<String>)
        ensures
            names_of(r@) == feature_attributes(names_of(self.features@)),
    {
        let mut attrs: Vec<String> = Vec::new();
        let mut i: usize = 0;
        while i < self.features.len()
            invariant
                i <= self.features.len(),
                attrs.len() == i,
                forall|j: int|
                    0 <= j < i ==> (#[trigger] attrs[j])@ == feature_attribute(self.features[j]@),
            decreases self.features.len() - i,
        {
            let mut text = String::from_str("#[target_feature(enable = \"");
            text.append(self.features[i].as_str());
            text.append("\")]");
            attrs.push(text);
            i = i + 1;
        }
        assert(names_of(attrs@) =~= feature_attributes(names_of(self.features@)));
        attrs
    }

    /// The attributes of a version for the tier: those of its features, then that of
    /// its architecture.
    pub fn fn_attrs(&self) -> (r: Vec<String>)
        ensures
            names_of(r@) == feature_attributes(names_of(self.features@)).push(
                arch_attribute(self.architecture@),
            ),
    {
        let mut attrs = self.target_feature();
        let ghost before = names_of(attrs@);
        attrs.push(self.target_arch());
        assert(names_of(attrs@) =~= before.push(arch_attribute(self.architecture@)));
        attrs
    }

    /// The name of the macro that detects a feature of the architecture at run time.
    pub fn detection_macro_name(&self) -> (r: String)
        ensures
            r@ == detection_macro(self.architecture@),
    {
        let mut text = String::from_str("is_");
        if self.architecture == String::from_str("x86_64") {
            text.append("x86");
        } else if self.architecture == String::from_str("risv64") {
            text.append("riscv");
        } else {
            text.append(self.architecture.as_str());
        }
        text.append("_feature_detected");
        text
    }

    /// The expression that is true where the hardware has every feature of the tier.
    pub fn features_detected(&self) -> (r: String)
        ensures
            r@ == detection_text(self.architecture@, names_of(self.features@)),
    {
        let detect = self.detection_macro_name();
        let ghost names = names_of(self.features@);
        let mut text = String::from_str("true");
        let mut i: usize = 0;
        assert(names.take(0) =~= Seq::<Seq<char>>::empty());
        while i < self.features.len()
            invariant
                i <= self.features.len(),
                names == names_of(self.features@),
                detect@ == detection_macro(self.architecture@),
                text@ == detection_text(self.architecture@, names.take(i as int)),
            decreases self.features.len() - i,
        {
            text.append(" && std::arch::");
            text.append(detect.as_str());
            text.append("!(\"");
            text.append(self.features[i].as_str());
            text.append("\")");
            proof {
                assert(names.take(i + 1).drop_last() =~= names.take(i as int));
                assert(names.take(i + 1).last() == self.features[i as int]@);
            }
            i = i + 1;
        }
        assert(names.take(self.features.len() as int) =~= names);
        text
    }

    /// The tier as one text: the architecture with each feature behind it after a plus
    /// sign.
    pub fn literal(&self) -> (r: String)
        ensures
            r@ == literal_text(self.architecture@, names_of(self.features@)),
    {
        let ghost names = names_of(self.features@);
        let mut text = self.architecture.clone();
        let mut i: usize = 0;
        assert(names.take(0) =~= Seq::<Seq<char>>::empty());
        while i < self.features.len()
            invariant
                i <= self.features.len(),
                names == names_of(self.features@),
                text@ == literal_text(self.architecture@, names.take(i as int)),
            decreases self.features.len() - i,
        {
            text.append("+");
            text.append(self.features[i].as_str());
            proof {
                assert(names.take(i + 1).drop_last() =~= names.take(i as int));
                assert(names.take(i + 1).last() == self.features[i as int]@);
            }
            i = i + 1;
        }
        assert(names.take(self.features.len() as int) =~= names);
        text
    }

    /// Whether the tier asks for any feature.
    pub fn has_features_specified(&self) -> (r: bool)
        ensures
            r == (self.features@.len() > 0),
    {
        self.features.len() > 0
    }
}

} // verus!
