//! A configuration layer that reports the variables it overrides, and the
//! shape of a statically known crate entry.
use vstd::prelude::*;

use crate::dev_env::DevEnvironment;
use crate::model::{insert_env, str_map, str_set, str_views, union_strs};

verus! {

/// Dependency specific configuration.
pub struct RustDependencyConfiguration {
    /// The Nix `buildInputs` needed
    pub build_inputs: Vec<String>,
    /// Packaging specific environment variables, applied in order
    pub environment_variables: Vec<(String, String)>,
    /// The Nix packages whose `lib.getLib` output goes on `LD_LIBRARY_PATH`
    pub ld_library_path_inputs: Vec<String>,
}

/// A statically known crate and what it needs.
pub struct KnownCrateRegistryValue {
    pub build_inputs: Vec<String>,
    pub environment_variables: Vec<(String, String)>,
    pub ld_library_path_inputs: Vec<String>,
}

/// The names of the variables of `s` that override a value already set, in
/// the order they are applied.
pub open spec fn overridden(existing: Map<Seq<char>, Seq<char>>, s: Seq<(String, String)>) -> Seq<Seq<char>>
    decreases s.len(),
{
    if s.len() == 0 {
        Seq::empty()
    } else {
        let before = overridden(existing, s.drop_last());
        if existing.union_prefer_right(str_map(s.drop_last())).contains_key(s.last().0@) {
            before.push(s.last().0@)
        } else {
            before
        }
    }
}

impl RustDependencyConfiguration {
    /// Applies the configuration on top of `dev_env`: inputs and library
    /// inputs are united, and each variable is set in order, the last value
    /// applied winning over any earlier one. Never fails; returns the names
    /// of the variables whose earlier value was overridden, for diagnostics.
    pub fn try_apply(&self, dev_env: &mut DevEnvironment) -> (r: Vec<String>)
        requires
            old(dev_env).wf(),
        ensures
            final(dev_env).wf(),
            final(dev_env).languages() == old(dev_env).languages(),
            final(dev_env)@.build_inputs == old(dev_env)@.build_inputs.union(str_set(self.build_inputs@)),
            final(dev_env)@.environment_variables == old(dev_env)@.environment_variables.union_prefer_right(
                str_map(self.environment_variables@),
            ),
            final(dev_env)@.runtime_inputs == old(dev_env)@.runtime_inputs.union(
                str_set(self.ld_library_path_inputs@),
            ),
            str_views(r@) == overridden(old(dev_env)@.environment_variables, self.environment_variables@),
    {
        union_strs(&mut dev_env.build_inputs, &self.build_inputs);
        let ghost start = str_map(dev_env.environment_variables@);
        let s = &self.environment_variables;
        let mut overrides: Vec<String> = Vec::new();
        let mut i: usize = 0;
        assert(str_views(overrides@) =~= overridden(start, s@.take(0)));
        while i < s.len()
            invariant
                i <= s@.len(),
                s@ == self.environment_variables@,
                dev_env.wf(),
                dev_env.languages() == old(dev_env).languages(),
                dev_env.runtime_inputs == old(dev_env).runtime_inputs,
                dev_env@.build_inputs == old(dev_env)@.build_inputs.union(str_set(self.build_inputs@)),
                start == old(dev_env)@.environment_variables,
                str_map(dev_env.environment_variables@) == start.union_prefer_right(str_map(s@.take(i as int))),
                str_views(overrides@) == overridden(start, s@.take(i as int)),
            decreases s@.len() - i,
        {
            assert(s@.take(i + 1).drop_last() =~= s@.take(i as int));
            assert(s@.take(i + 1).last() == s@[i as int]);
            let prev = insert_env(&mut dev_env.environment_variables, &s[i].0, &s[i].1);
            assert(str_map(dev_env.environment_variables@) =~= start.union_prefer_right(str_map(s@.take(i + 1))));
            if prev.is_some() {
                // The earlier value is overridden: last applied wins.
                let ghost before = overrides@;
                overrides.push(s[i].0.clone());
                assert(str_views(overrides@) =~= str_views(before).push(s@[i as int].0@));
            }
            i = i + 1;
        }
        assert(s@.take(i as int) =~= s@);
        union_strs(&mut dev_env.runtime_inputs, &self.ld_library_path_inputs);
        overrides
    }
}

} // verus!
