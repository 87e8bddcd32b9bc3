//! Configuration layers: what one dependency, on one platform, asks of the
//! development environment, and how layers fold together.
use vstd::prelude::*;

use crate::model::{
    distinct_keys, distinct_strs, find_key, lookup, str_map, str_set, union_env, union_strs,
};

verus! {

/// The mathematical content of a configuration layer.
pub struct TargetView {
    pub build_inputs: Set<Seq<char>>,
    pub environment_variables: Map<Seq<char>, Seq<char>>,
    pub runtime_inputs: Set<Seq<char>>,
}

impl TargetView {
    pub open spec fn empty() -> TargetView {
        TargetView {
            build_inputs: Set::empty(),
            environment_variables: Map::empty(),
            runtime_inputs: Set::empty(),
        }
    }

    /// Layer `t` applied on top of `self`: inputs are united, and a variable
    /// set by `t` replaces the value it had in `self`.
    pub open spec fn merge(self, t: TargetView) -> TargetView {
        TargetView {
            build_inputs: self.build_inputs.union(t.build_inputs),
            environment_variables: self.environment_variables.union_prefer_right(
                t.environment_variables,
            ),
            runtime_inputs: self.runtime_inputs.union(t.runtime_inputs),
        }
    }

    /// The dependency record `rec` applied on top of `self` on platform
    /// `target`: its default layer, then its layer for `target`, if any.
    pub open spec fn apply_record(self, rec: RustDependencyData, target: Seq<char>) -> TargetView {
        match lookup(rec.targets@, target) {
            Some(o) => self.merge(rec.default@).merge(o@),
            None => self.merge(rec.default@),
        }
    }
}

/// Dependency specific configuration: the Nix inputs and the variables that
/// a development shell needs.
pub struct RustDependencyTargetData {
    /// The Nix `buildInputs` needed
    pub build_inputs: Vec<String>,
    /// Packaging specific environment variables, applied in order
    pub environment_variables: Vec<(String, String)>,
    /// The Nix packages whose `lib.getLib` output goes on `LD_LIBRARY_PATH`
    pub runtime_inputs: Vec<String>,
}

impl View for RustDependencyTargetData {
    type V = TargetView;

    open spec fn view(&self) -> TargetView {
        TargetView {
            build_inputs: str_set(self.build_inputs@),
            environment_variables: str_map(self.environment_variables@),
            runtime_inputs: str_set(self.runtime_inputs@),
        }
    }
}

impl RustDependencyTargetData {
    /// A layer that asks for nothing.
    pub fn new() -> (r: Self)
        ensures
            r@ == TargetView::empty(),
            r.build_inputs@.len() == 0,
            r.environment_variables@.len() == 0,
            r.runtime_inputs@.len() == 0,
    {
        let r = RustDependencyTargetData {
            build_inputs: Vec::new(),
            environment_variables: Vec::new(),
            runtime_inputs: Vec::new(),
        };
        assert(r@.build_inputs =~= Set::empty());
        assert(r@.runtime_inputs =~= Set::empty());
        assert(r@.environment_variables =~= Map::empty());
        r
    }
}

/// The configuration of one dependency: a default layer, and layers for
/// particular platforms (keyed by target triple), which come after it.
pub struct RustDependencyData {
    pub default: RustDependencyTargetData,
    /// Target triple to layer; custom targets are allowed, so any string.
    pub targets: Vec<(String, RustDependencyTargetData)>,
}

impl RustDependencyData {
    /// Each target triple has one layer at most. (Lookups take the last pair
    /// with a key, so a repeated key would be harmless, but a record read from
    /// a document never has one.)
    pub open spec fn wf(self) -> bool {
        distinct_keys(self.targets@)
    }

    /// What the record amounts to on platform `target`.
    pub open spec fn for_target(self, target: Seq<char>) -> TargetView {
        TargetView::empty().apply_record(self, target)
    }

    /// The build inputs of the record on platform `target`.
    pub fn build_inputs_for(&self, target: &String) -> (r: Vec<String>)
        ensures
            str_set(r@) == self.for_target(target@).build_inputs,
            distinct_strs(r@),
    {
        let mut r: Vec<String> = Vec::new();
        assert(str_set(r@) =~= Set::empty());
        union_strs(&mut r, &self.default.build_inputs);
        // The platform's layer comes after: it is more specific.
        if let Some(i) = find_key(&self.targets, target) {
            union_strs(&mut r, &self.targets[i].1.build_inputs);
        }
        r
    }

    /// The environment variables of the record on platform `target`.
    pub fn environment_variables_for(&self, target: &String) -> (r: Vec<(String, String)>)
        ensures
            str_map(r@) == self.for_target(target@).environment_variables,
            distinct_keys(r@),
    {
        let mut r: Vec<(String, String)> = Vec::new();
        assert(str_map(r@) =~= Map::empty());
        union_env(&mut r, &self.default.environment_variables);
        if let Some(i) = find_key(&self.targets, target) {
            union_env(&mut r, &self.targets[i].1.environment_variables);
        }
        r
    }

    /// The runtime inputs of the record on platform `target`.
    pub fn runtime_inputs_for(&self, target: &String) -> (r: Vec<String>)
        ensures
            str_set(r@) == self.for_target(target@).runtime_inputs,
            distinct_strs(r@),
    {
        let mut r: Vec<String> = Vec::new();
        assert(str_set(r@) =~= Set::empty());
        union_strs(&mut r, &self.default.runtime_inputs);
        if let Some(i) = find_key(&self.targets, target) {
            union_strs(&mut r, &self.targets[i].1.runtime_inputs);
        }
        r
    }

    /// The build inputs of the record on the platform this library runs on.
    pub fn build_inputs(&self) -> (r: Vec<String>)
        ensures
            exists|t: Seq<char>| str_set(r@) == self.for_target(t).build_inputs,
            distinct_strs(r@),
    {
        let target = host_target();
        self.build_inputs_for(&target)
    }

    /// The environment variables of the record on the platform this library
    /// runs on.
    pub fn environment_variables(&self) -> (r: Vec<(String, String)>)
        ensures
            exists|t: Seq<char>| str_map(r@) == self.for_target(t).environment_variables,
            distinct_keys(r@),
    {
        let target = host_target();
        self.environment_variables_for(&target)
    }

    /// The runtime inputs of the record on the platform this library runs on.
    pub fn runtime_inputs(&self) -> (r: Vec<String>)
        ensures
            exists|t: Seq<char>| str_set(r@) == self.for_target(t).runtime_inputs,
            distinct_strs(r@),
    {
        let target = host_target();
        self.runtime_inputs_for(&target)
    }
}

/// One ecosystem's registry: the layer every project of the ecosystem gets
/// (`cargo` for Rust), and the records of known dependencies by name.
pub struct RustDependencyRegistryData {
    pub default: RustDependencyTargetData,
    pub dependencies: Vec<(String, RustDependencyData)>,
}

impl RustDependencyRegistryData {
    /// Each dependency name has one record at most, and each record is well
    /// formed. (Lookups take the last pair with a name, so a repeated name
    /// would be harmless, but a registry read from a document never has one.)
    pub open spec fn wf(self) -> bool {
        &&& distinct_keys(self.dependencies@)
        &&& forall|i: int| 0 <= i < self.dependencies@.len() ==> (#[trigger] self.dependencies@[i]).1.wf()
    }

    /// A registry that knows no dependency and asks nothing by default.
    pub fn new() -> (r: Self)
        ensures
            r.wf(),
            r.default@ == TargetView::empty(),
            r.dependencies@.len() == 0,
    {
        RustDependencyRegistryData { default: RustDependencyTargetData::new(), dependencies: Vec::new() }
    }
}

/// A registry keyed by Go package path, whose default is a full record.
pub struct GoDependencyRegistryData {
    pub default: RustDependencyData,
    pub dependencies: Vec<(String, RustDependencyData)>,
}

/// The target triple of the platform this library was built for.
///
/// Relies on `target_lexicon::HOST` and its `Display` impl, which writes the
/// triple. Nothing is stated of it: it differs from one build to another.
#[verifier::external_body]
pub(crate) fn host_target() -> (r: String) {
    format!("{}", target_lexicon::HOST)
}

} // verus!
