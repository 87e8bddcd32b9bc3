//! The developer environment: an accumulator into which configuration layers
//! are folded, in a fixed order, for the dependencies a project has.
use vstd::prelude::*;

use crate::metadata::{
    cargo_entries, cargo_names, package_json_entries, package_json_keys, package_json_keys_of,
    package_json_names, package_json_names_of, CargoMetadata, CargoMetadataPackage, PackageJson,
};
use crate::order::{canonical, sorted_names};
use crate::model::{
    distinct_keys, distinct_strs, find_key, lookup, str_map, str_set, str_views, union_env,
    union_strs,
};
use crate::target::{
    host_target, RustDependencyData, RustDependencyRegistryData, RustDependencyTargetData,
    TargetView,
};

verus! {

#[derive(Debug, Clone, Copy, PartialEq, Eq, Hash, Structural)]
pub enum DetectedLanguage {
    Rust,
    Javascript,
}

/// The environment being composed. Its lists stand for sets (inputs,
/// languages) and a map (variables), without repeated elements or keys.
pub struct DevEnvironment {
    pub build_inputs: Vec<String>,
    pub environment_variables: Vec<(String, String)>,
    pub runtime_inputs: Vec<String>,
    pub detected_languages: Vec<DetectedLanguage>,
}

impl View for DevEnvironment {
    type V = TargetView;

    open spec fn view(&self) -> TargetView {
        TargetView {
            build_inputs: str_set(self.build_inputs@),
            environment_variables: str_map(self.environment_variables@),
            runtime_inputs: str_set(self.runtime_inputs@),
        }
    }
}

/// The registry's record for `name`, if any, applied on top of `acc`.
pub open spec fn registry_step(
    acc: TargetView,
    lang: RustDependencyRegistryData,
    name: Seq<char>,
    target: Seq<char>,
) -> TargetView {
    match lookup(lang.dependencies@, name) {
        Some(rec) => acc.apply_record(rec, target),
        None => acc,
    }
}

/// The registry's records for `names`, applied in order on top of `acc`;
/// names the registry does not know are skipped.
pub open spec fn registry_layer(
    acc: TargetView,
    lang: RustDependencyRegistryData,
    names: Seq<Seq<char>>,
    target: Seq<char>,
) -> TargetView
    decreases names.len(),
{
    if names.len() == 0 {
        acc
    } else {
        registry_step(registry_layer(acc, lang, names.drop_last(), target), lang, names.last(), target)
    }
}

/// The records `inline`, applied in order on top of `acc`.
pub open spec fn inline_layer(
    acc: TargetView,
    inline: Seq<RustDependencyData>,
    target: Seq<char>,
) -> TargetView
    decreases inline.len(),
{
    if inline.len() == 0 {
        acc
    } else {
        inline_layer(acc, inline.drop_last(), target).apply_record(inline.last(), target)
    }
}

/// A whole composition on top of `acc`: the ecosystem's default layer, then
/// the registry's records for the detected dependencies, then the
/// configuration the project declares inline, which takes precedence.
pub open spec fn compose(
    acc: TargetView,
    lang: RustDependencyRegistryData,
    names: Seq<Seq<char>>,
    inline: Seq<RustDependencyData>,
    target: Seq<char>,
) -> TargetView {
    inline_layer(registry_layer(acc.merge(lang.default@), lang, names, target), inline, target)
}

/// The configurations declared by the entries keyed `n`, in order.
pub open spec fn inline_named(entries: Seq<(Seq<char>, Option<RustDependencyData>)>, n: Seq<char>) -> Seq<
    RustDependencyData,
>
    decreases entries.len(),
{
    if entries.len() == 0 {
        Seq::empty()
    } else {
        let before = inline_named(entries.drop_last(), n);
        if entries.last().0 == n {
            match entries.last().1 {
                Some(c) => before.push(c),
                None => before,
            }
        } else {
            before
        }
    }
}

/// The configurations declared by the entries, key by key in the order of
/// `keys`.
pub open spec fn inline_in_order(
    entries: Seq<(Seq<char>, Option<RustDependencyData>)>,
    keys: Seq<Seq<char>>,
) -> Seq<RustDependencyData>
    decreases keys.len(),
{
    if keys.len() == 0 {
        Seq::empty()
    } else {
        inline_in_order(entries, keys.drop_last()) + inline_named(entries, keys.last())
    }
}

/// Applying two lists of records one after the other is applying the two.
pub proof fn lemma_inline_layer_concat(
    acc: TargetView,
    a: Seq<RustDependencyData>,
    b: Seq<RustDependencyData>,
    target: Seq<char>,
)
    ensures
        inline_layer(acc, a + b, target) == inline_layer(inline_layer(acc, a, target), b, target),
    decreases b.len(),
{
    if b.len() == 0 {
        assert(a + b =~= a);
    } else {
        lemma_inline_layer_concat(acc, a, b.drop_last(), target);
        assert((a + b).drop_last() =~= a + b.drop_last());
        assert((a + b).last() == b.last());
    }
}

/// The composition of a Rust project: names in canonical order, and the
/// packages' own configurations name by name in that order.
pub open spec fn compose_cargo(
    acc: TargetView,
    lang: RustDependencyRegistryData,
    pkgs: Seq<CargoMetadataPackage>,
    target: Seq<char>,
) -> TargetView {
    let names = canonical(cargo_names(pkgs).to_set());
    compose(acc, lang, names, inline_in_order(cargo_entries(pkgs), names), target)
}

/// The composition of a JavaScript project: names in canonical order, and
/// the manifests' own configurations key by key in canonical order.
pub open spec fn compose_package_jsons(
    acc: TargetView,
    lang: RustDependencyRegistryData,
    manifests: Seq<PackageJson>,
    target: Seq<char>,
) -> TargetView {
    compose(
        acc,
        lang,
        canonical(package_json_names(manifests).to_set()),
        inline_in_order(
            package_json_entries(manifests),
            canonical(package_json_keys(manifests).to_set()),
        ),
        target,
    )
}

/// Which kind of project a directory holds: a Rust project when it has a
/// `Cargo.toml`, else a JavaScript project when it has a `package.json`;
/// `None` when it holds no supported project.
pub fn project_kind(has_cargo_toml: bool, has_package_json: bool) -> (r: Option<DetectedLanguage>)
    ensures
        r == (if has_cargo_toml {
            Some(DetectedLanguage::Rust)
        } else if has_package_json {
            Some(DetectedLanguage::Javascript)
        } else {
            None::<DetectedLanguage>
        }),
{
    if has_cargo_toml {
        Some(DetectedLanguage::Rust)
    } else if has_package_json {
        Some(DetectedLanguage::Javascript)
    } else {
        None
    }
}

fn contains_language(langs: &Vec<DetectedLanguage>, lang: DetectedLanguage) -> (r: bool)
    ensures
        r == langs@.contains(lang),
{
    let mut i: usize = 0;
    while i < langs.len()
        invariant
            i <= langs@.len(),
            forall|j: int| 0 <= j < i ==> langs@[j] != lang,
        decreases langs@.len() - i,
    {
        if langs[i] == lang {
            assert(langs@[i as int] == lang);
            return true;
        }
        i = i + 1;
    }
    false
}

impl DevEnvironment {
    pub open spec fn wf(&self) -> bool {
        &&& distinct_strs(self.build_inputs@)
        &&& distinct_keys(self.environment_variables@)
        &&& distinct_strs(self.runtime_inputs@)
        &&& self.detected_languages@.no_duplicates()
    }

    /// The set of languages detected so far.
    pub open spec fn languages(&self) -> Set<DetectedLanguage> {
        self.detected_languages@.to_set()
    }

    /// An empty environment.
    pub fn new() -> (r: Self)
        ensures
            r.wf(),
            r@ == TargetView::empty(),
            r.languages() == Set::<DetectedLanguage>::empty(),
    {
        let r = DevEnvironment {
            build_inputs: Vec::new(),
            environment_variables: Vec::new(),
            runtime_inputs: Vec::new(),
            detected_languages: Vec::new(),
        };
        assert(r@.build_inputs =~= Set::empty());
        assert(r@.runtime_inputs =~= Set::empty());
        assert(r@.environment_variables =~= Map::empty());
        assert(r.languages() =~= Set::empty());
        r
    }

    /// Records `lang` as detected.
    pub fn add_language(&mut self, lang: DetectedLanguage)
        requires
            old(self).wf(),
        ensures
            final(self).wf(),
            final(self)@ == old(self)@,
            final(self).languages() == old(self).languages().insert(lang),
    {
        if contains_language(&self.detected_languages, lang) {
            assert(self.languages() =~= old(self).languages().insert(lang));
            return;
        }
        let ghost before = self.detected_languages@;
        self.detected_languages.push(lang);
        proof {
            assert(self.detected_languages@ == before.push(lang));
            before.lemma_push_to_set_commute(lang);
        }
    }

    /// Decides which kind of project a directory holds: a Rust project when it
    /// has a `Cargo.toml`, else a JavaScript project when it has a
    /// `package.json`. The language found is recorded; `None` means that no
    /// supported project was found.
    pub fn detect(&mut self, has_cargo_toml: bool, has_package_json: bool) -> (r: Option<DetectedLanguage>)
        requires
            old(self).wf(),
        ensures
            final(self).wf(),
            final(self)@ == old(self)@,
            r == (if has_cargo_toml {
                Some(DetectedLanguage::Rust)
            } else if has_package_json {
                Some(DetectedLanguage::Javascript)
            } else {
                None::<DetectedLanguage>
            }),
            match r {
                Some(l) => final(self).languages() == old(self).languages().insert(l),
                None => final(self).languages() == old(self).languages(),
            },
    {
        let kind = project_kind(has_cargo_toml, has_package_json);
        if let Some(lang) = kind {
            self.add_language(lang);
        }
        kind
    }

    /// Applies the registry's record for `name`, if it has one, on platform
    /// `target`.
    pub fn apply_registry_entry(
        &mut self,
        lang: &RustDependencyRegistryData,
        name: &String,
        target: &String,
    )
        requires
            old(self).wf(),
        ensures
            final(self).wf(),
            final(self)@ == registry_step(old(self)@, *lang, name@, target@),
            final(self).languages() == old(self).languages(),
    {
        if let Some(i) = find_key(&lang.dependencies, name) {
            lang.dependencies[i].1.apply_for_target(self, target);
        }
    }

    /// Applies, in order, the registry's records for `names` on platform
    /// `target`; names the registry does not know contribute nothing.
    pub fn apply_registry_entries(
        &mut self,
        lang: &RustDependencyRegistryData,
        names: &Vec<String>,
        target: &String,
    )
        requires
            old(self).wf(),
        ensures
            final(self).wf(),
            final(self)@ == registry_layer(old(self)@, *lang, str_views(names@), target@),
            final(self).languages() == old(self).languages(),
    {
        let mut i: usize = 0;
        while i < names.len()
            invariant
                i <= names@.len(),
                self.wf(),
                self@ == registry_layer(old(self)@, *lang, str_views(names@.take(i as int)), target@),
                self.languages() == old(self).languages(),
            decreases names@.len() - i,
        {
            self.apply_registry_entry(lang, &names[i], target);
            assert(str_views(names@.take(i + 1)).drop_last() =~= str_views(names@.take(i as int)));
            assert(names@.take(i + 1)[i as int] == names@[i as int]);
            assert(str_views(names@.take(i + 1)).last() == names@[i as int]@);
            i = i + 1;
        }
        assert(names@.take(i as int) =~= names@);
    }

    /// Applies, in order, the configurations that the packages named `name`
    /// declare for themselves.
    fn apply_inline_of_cargo_package(&mut self, pkgs: &Vec<CargoMetadataPackage>, name: &String, target: &String)
        requires
            old(self).wf(),
        ensures
            final(self).wf(),
            final(self)@ == inline_layer(old(self)@, inline_named(cargo_entries(pkgs@), name@), target@),
            final(self).languages() == old(self).languages(),
    {
        let ghost entries = cargo_entries(pkgs@);
        let mut j: usize = 0;
        while j < pkgs.len()
            invariant
                j <= pkgs@.len(),
                entries == cargo_entries(pkgs@),
                self.wf(),
                self@ == inline_layer(old(self)@, inline_named(entries.take(j as int), name@), target@),
                self.languages() == old(self).languages(),
            decreases pkgs@.len() - j,
        {
            assert(entries.take(j + 1).drop_last() =~= entries.take(j as int));
            assert(entries.take(j + 1).last() == entries[j as int]);
            let ghost done = inline_named(entries.take(j as int), name@);
            if pkgs[j].name == *name {
                if let Some(config) = pkgs[j].riff_config() {
                    config.apply_for_target(self, target);
                    assert(inline_named(entries.take(j + 1), name@) == done.push(*config));
                    assert(done.push(*config).drop_last() =~= done);
                }
            }
            j = j + 1;
        }
        assert(entries.take(j as int) =~= entries);
    }

    /// Applies, in order, the configurations that the manifests keyed `key`
    /// declare for themselves.
    fn apply_inline_of_manifest(&mut self, manifests: &Vec<PackageJson>, key: &String, target: &String)
        requires
            old(self).wf(),
        ensures
            final(self).wf(),
            final(self)@ == inline_layer(old(self)@, inline_named(package_json_entries(manifests@), key@), target@),
            final(self).languages() == old(self).languages(),
    {
        let ghost entries = package_json_entries(manifests@);
        let mut j: usize = 0;
        while j < manifests.len()
            invariant
                j <= manifests@.len(),
                entries == package_json_entries(manifests@),
                self.wf(),
                self@ == inline_layer(old(self)@, inline_named(entries.take(j as int), key@), target@),
                self.languages() == old(self).languages(),
            decreases manifests@.len() - j,
        {
            assert(entries.take(j + 1).drop_last() =~= entries.take(j as int));
            assert(entries.take(j + 1).last() == entries[j as int]);
            let ghost done = inline_named(entries.take(j as int), key@);
            let matches_key = match &manifests[j].name {
                Some(n) => *n == *key,
                None => key.as_str().is_empty(),
            };
            proof {
                if manifests@[j as int].name is None && key@.len() == 0 {
                    assert(key@ =~= Seq::<char>::empty());
                }
            }
            if matches_key {
                if let Some(config) = manifests[j].riff_config() {
                    config.apply_for_target(self, target);
                    assert(inline_named(entries.take(j + 1), key@) == done.push(*config));
                    assert(done.push(*config).drop_last() =~= done);
                }
            }
            j = j + 1;
        }
        assert(entries.take(j as int) =~= entries);
    }

    /// Composes the environment of a Rust project on platform `target`: the
    /// ecosystem's default layer, the registry's records for the packages
    /// that `cargo metadata` lists, then what the packages declare under
    /// `package.metadata.riff`. Packages are taken in the canonical order of
    /// their names, so the result depends only on the set of names and, for
    /// each name, on what its packages declare, never on the order in which
    /// the packages are listed.
    pub fn add_deps_from_cargo_metadata_for_target(
        &mut self,
        lang: &RustDependencyRegistryData,
        metadata: &CargoMetadata,
        target: &String,
    )
        requires
            old(self).wf(),
        ensures
            final(self).wf(),
            final(self)@ == compose_cargo(old(self)@, *lang, metadata.packages@, target@),
            final(self).languages() == old(self).languages(),
    {
        lang.default.apply(self);
        let names = sorted_names(&metadata.package_names());
        self.apply_registry_entries(lang, &names, target);
        let ghost ns = str_views(names@);
        let ghost entries = cargo_entries(metadata.packages@);
        let ghost mid = self@;
        let mut i: usize = 0;
        assert(ns.take(0) =~= Seq::<Seq<char>>::empty());
        while i < names.len()
            invariant
                i <= names@.len(),
                ns == str_views(names@),
                entries == cargo_entries(metadata.packages@),
                self.wf(),
                self@ == inline_layer(mid, inline_in_order(entries, ns.take(i as int)), target@),
                self.languages() == old(self).languages(),
            decreases names@.len() - i,
        {
            self.apply_inline_of_cargo_package(&metadata.packages, &names[i], target);
            proof {
                lemma_inline_layer_concat(
                    mid,
                    inline_in_order(entries, ns.take(i as int)),
                    inline_named(entries, ns[i as int]),
                    target@,
                );
                assert(ns.take(i + 1).drop_last() =~= ns.take(i as int));
                assert(ns.take(i + 1).last() == ns[i as int]);
            }
            i = i + 1;
        }
        assert(ns.take(i as int) =~= ns);
    }

    /// `add_deps_from_cargo_metadata_for_target` on the platform this library
    /// runs on.
    pub fn add_deps_from_cargo_metadata(&mut self, lang: &RustDependencyRegistryData, metadata: &CargoMetadata)
        requires
            old(self).wf(),
        ensures
            final(self).wf(),
            exists|t: Seq<char>| final(self)@ == compose_cargo(old(self)@, *lang, metadata.packages@, t),
            final(self).languages() == old(self).languages(),
    {
        let target = host_target();
        self.add_deps_from_cargo_metadata_for_target(lang, metadata, &target);
    }

    /// Records a Rust project and composes its environment: what detecting a
    /// project with a `Cargo.toml` amounts to, once `cargo metadata` has run.
    pub fn add_rust_project(&mut self, lang: &RustDependencyRegistryData, metadata: &CargoMetadata)
        requires
            old(self).wf(),
        ensures
            final(self).wf(),
            exists|t: Seq<char>| final(self)@ == compose_cargo(old(self)@, *lang, metadata.packages@, t),
            final(self).languages() == old(self).languages().insert(DetectedLanguage::Rust),
    {
        self.add_language(DetectedLanguage::Rust);
        self.add_deps_from_cargo_metadata(lang, metadata);
    }

    /// Composes the environment of a JavaScript project on platform `target`
    /// from its `package.json` manifests: the ecosystem's default layer, the
    /// registry's records for the manifests' names, then what the manifests
    /// declare under `config.riff`. Names and manifests are taken in the
    /// canonical order of their names, so the result depends only on the set
    /// of names and, for each name, on what its manifests declare.
    pub fn add_deps_from_package_jsons_for_target(
        &mut self,
        lang: &RustDependencyRegistryData,
        manifests: &Vec<PackageJson>,
        target: &String,
    )
        requires
            old(self).wf(),
        ensures
            final(self).wf(),
            final(self)@ == compose_package_jsons(old(self)@, *lang, manifests@, target@),
            final(self).languages() == old(self).languages(),
    {
        lang.default.apply(self);
        let names = sorted_names(&package_json_names_of(manifests));
        self.apply_registry_entries(lang, &names, target);
        let keys = sorted_names(&package_json_keys_of(manifests));
        let ghost ks = str_views(keys@);
        let ghost entries = package_json_entries(manifests@);
        let ghost mid = self@;
        let mut i: usize = 0;
        assert(ks.take(0) =~= Seq::<Seq<char>>::empty());
        while i < keys.len()
            invariant
                i <= keys@.len(),
                ks == str_views(keys@),
                entries == package_json_entries(manifests@),
                self.wf(),
                self@ == inline_layer(mid, inline_in_order(entries, ks.take(i as int)), target@),
                self.languages() == old(self).languages(),
            decreases keys@.len() - i,
        {
            self.apply_inline_of_manifest(manifests, &keys[i], target);
            proof {
                lemma_inline_layer_concat(
                    mid,
                    inline_in_order(entries, ks.take(i as int)),
                    inline_named(entries, ks[i as int]),
                    target@,
                );
                assert(ks.take(i + 1).drop_last() =~= ks.take(i as int));
                assert(ks.take(i + 1).last() == ks[i as int]);
            }
            i = i + 1;
        }
        assert(ks.take(i as int) =~= ks);
    }

    /// `add_deps_from_package_jsons_for_target` on the platform this library
    /// runs on.
    pub fn add_deps_from_package_jsons(&mut self, lang: &RustDependencyRegistryData, manifests: &Vec<PackageJson>)
        requires
            old(self).wf(),
        ensures
            final(self).wf(),
            exists|t: Seq<char>| final(self)@ == compose_package_jsons(old(self)@, *lang, manifests@, t),
            final(self).languages() == old(self).languages(),
    {
        let target = host_target();
        self.add_deps_from_package_jsons_for_target(lang, manifests, &target);
    }

    /// Records a JavaScript project and composes its environment from its
    /// manifests.
    pub fn add_javascript_project(&mut self, lang: &RustDependencyRegistryData, manifests: &Vec<PackageJson>)
        requires
            old(self).wf(),
        ensures
            final(self).wf(),
            exists|t: Seq<char>| final(self)@ == compose_package_jsons(old(self)@, *lang, manifests@, t),
            final(self).languages() == old(self).languages().insert(DetectedLanguage::Javascript),
    {
        self.add_language(DetectedLanguage::Javascript);
        self.add_deps_from_package_jsons(lang, manifests);
    }
}

impl RustDependencyTargetData {
    /// Applies this layer on top of `dev_env`: inputs are united, and each
    /// variable overrides the value it had before.
    pub fn apply(&self, dev_env: &mut DevEnvironment)
        requires
            old(dev_env).wf(),
        ensures
            final(dev_env).wf(),
            final(dev_env)@ == old(dev_env)@.merge(self@),
            final(dev_env).languages() == old(dev_env).languages(),
    {
        union_strs(&mut dev_env.build_inputs, &self.build_inputs);
        union_env(&mut dev_env.environment_variables, &self.environment_variables);
        union_strs(&mut dev_env.runtime_inputs, &self.runtime_inputs);
    }
}

impl RustDependencyData {
    /// Applies the record on top of `dev_env` on platform `target`: its
    /// default layer, then its layer for `target`, which is more specific.
    pub fn apply_for_target(&self, dev_env: &mut DevEnvironment, target: &String)
        requires
            old(dev_env).wf(),
        ensures
            final(dev_env).wf(),
            final(dev_env)@ == old(dev_env)@.apply_record(*self, target@),
            final(dev_env).languages() == old(dev_env).languages(),
    {
        self.default.apply(dev_env);
        if let Some(i) = find_key(&self.targets, target) {
            self.targets[i].1.apply(dev_env);
        }
    }

    /// Applies the record on top of `dev_env` on the platform this library
    /// runs on.
    pub fn apply(&self, dev_env: &mut DevEnvironment)
        requires
            old(dev_env).wf(),
        ensures
            final(dev_env).wf(),
            exists|t: Seq<char>| final(dev_env)@ == old(dev_env)@.apply_record(*self, t),
            final(dev_env).languages() == old(dev_env).languages(),
    {
        let target = host_target();
        self.apply_for_target(dev_env, &target);
    }
}

} // verus!
