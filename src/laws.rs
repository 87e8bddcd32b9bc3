//! Properties of composition that hold for every registry, every set of
//! detected dependencies and every platform.
use vstd::prelude::*;

use crate::dev_env::{
    compose, compose_cargo, compose_package_jsons, inline_in_order, inline_layer, inline_named,
    registry_layer,
};
use crate::metadata::{
    cargo_entries, cargo_names, package_json_entries, package_json_keys, package_json_names,
    CargoMetadataPackage, PackageJson,
};
use crate::order::canonical;
use crate::model::lookup;
use crate::target::{RustDependencyData, RustDependencyRegistryData, TargetView};

verus! {

/// A set of inputs of a layer: empty in the empty layer, and united when
/// layers merge. Build inputs and runtime inputs are such sets.
pub open spec fn is_input_set(sel: spec_fn(TargetView) -> Set<Seq<char>>) -> bool {
    &&& sel(TargetView::empty()) == Set::<Seq<char>>::empty()
    &&& forall|a: TargetView, b: TargetView| #[trigger] sel(a.merge(b)) == sel(a).union(sel(b))
}

pub open spec fn build_inputs_of(v: TargetView) -> Set<Seq<char>> {
    v.build_inputs
}

pub open spec fn runtime_inputs_of(v: TargetView) -> Set<Seq<char>> {
    v.runtime_inputs
}

/// Build inputs and runtime inputs are sets of inputs.
pub proof fn lemma_input_sets()
    ensures
        is_input_set(|v: TargetView| build_inputs_of(v)),
        is_input_set(|v: TargetView| runtime_inputs_of(v)),
{
    assert(TargetView::empty().build_inputs =~= Set::<Seq<char>>::empty());
    assert(TargetView::empty().runtime_inputs =~= Set::<Seq<char>>::empty());
}

/// The inputs picked by `sel` that the registry's records for `names` bring
/// on `target`.
pub open spec fn registry_inputs(
    sel: spec_fn(TargetView) -> Set<Seq<char>>,
    lang: RustDependencyRegistryData,
    names: Seq<Seq<char>>,
    target: Seq<char>,
) -> Set<Seq<char>> {
    Set::new(
        |x: Seq<char>|
            exists|i: int|
                0 <= i < names.len() && match lookup(lang.dependencies@, #[trigger] names[i]) {
                    Some(rec) => sel(rec.for_target(target)).contains(x),
                    None => false,
                },
    )
}

/// The inputs picked by `sel` that the records `inline` bring on `target`.
pub open spec fn inline_inputs(
    sel: spec_fn(TargetView) -> Set<Seq<char>>,
    inline: Seq<RustDependencyData>,
    target: Seq<char>,
) -> Set<Seq<char>> {
    Set::new(
        |x: Seq<char>|
            exists|i: int| 0 <= i < inline.len() && sel((#[trigger] inline[i]).for_target(target)).contains(x),
    )
}

/// Applying a record adds exactly the inputs it has on that platform.
pub proof fn lemma_apply_record_inputs(
    sel: spec_fn(TargetView) -> Set<Seq<char>>,
    acc: TargetView,
    rec: RustDependencyData,
    target: Seq<char>,
)
    requires
        is_input_set(sel),
    ensures
        sel(acc.apply_record(rec, target)) == sel(acc).union(sel(rec.for_target(target))),
{
    let e = TargetView::empty();
    assert(sel(e.merge(rec.default@)) == sel(e).union(sel(rec.default@)));
    assert(sel(acc.merge(rec.default@)) == sel(acc).union(sel(rec.default@)));
    match lookup(rec.targets@, target) {
        Some(o) => {
            assert(sel(acc.merge(rec.default@).merge(o@)) == sel(acc.merge(rec.default@)).union(sel(o@)));
            assert(sel(e.merge(rec.default@).merge(o@)) == sel(e.merge(rec.default@)).union(sel(o@)));
        },
        None => {},
    }
    assert(sel(acc.apply_record(rec, target)) =~= sel(acc).union(sel(rec.for_target(target))));
}

/// The registry layer adds exactly the inputs of the matched records.
pub proof fn lemma_registry_layer_inputs(
    sel: spec_fn(TargetView) -> Set<Seq<char>>,
    acc: TargetView,
    lang: RustDependencyRegistryData,
    names: Seq<Seq<char>>,
    target: Seq<char>,
)
    requires
        is_input_set(sel),
    ensures
        sel(registry_layer(acc, lang, names, target)) == sel(acc).union(
            registry_inputs(sel, lang, names, target),
        ),
    decreases names.len(),
{
    if names.len() == 0 {
        assert(registry_inputs(sel, lang, names, target) =~= Set::empty());
        assert(sel(acc).union(Set::empty()) =~= sel(acc));
    } else {
        let prefix = names.drop_last();
        lemma_registry_layer_inputs(sel, acc, lang, prefix, target);
        let prev = registry_layer(acc, lang, prefix, target);
        match lookup(lang.dependencies@, names.last()) {
            Some(rec) => {
                lemma_apply_record_inputs(sel, prev, rec, target);
            },
            None => {},
        }
        let all = registry_inputs(sel, lang, names, target);
        let before = registry_inputs(sel, lang, prefix, target);
        assert forall|x: Seq<char>| all.contains(x) implies before.contains(x) || (match lookup(
            lang.dependencies@,
            names.last(),
        ) {
            Some(rec) => sel(rec.for_target(target)).contains(x),
            None => false,
        }) by {
            let i = choose|i: int|
                0 <= i < names.len() && match lookup(lang.dependencies@, #[trigger] names[i]) {
                    Some(rec) => sel(rec.for_target(target)).contains(x),
                    None => false,
                };
            if i < names.len() - 1 {
                assert(prefix[i] == names[i]);
            }
        }
        assert forall|x: Seq<char>| before.contains(x) implies all.contains(x) by {
            let i = choose|i: int|
                0 <= i < prefix.len() && match lookup(lang.dependencies@, #[trigger] prefix[i]) {
                    Some(rec) => sel(rec.for_target(target)).contains(x),
                    None => false,
                };
            assert(names[i] == prefix[i]);
        }
        assert(sel(registry_layer(acc, lang, names, target)) =~= sel(acc).union(all));
    }
}

/// The inline layer adds exactly the inputs of its records.
pub proof fn lemma_inline_layer_inputs(
    sel: spec_fn(TargetView) -> Set<Seq<char>>,
    acc: TargetView,
    inline: Seq<RustDependencyData>,
    target: Seq<char>,
)
    requires
        is_input_set(sel),
    ensures
        sel(inline_layer(acc, inline, target)) == sel(acc).union(inline_inputs(sel, inline, target)),
    decreases inline.len(),
{
    if inline.len() == 0 {
        assert(inline_inputs(sel, inline, target) =~= Set::empty());
        assert(sel(acc).union(Set::empty()) =~= sel(acc));
    } else {
        let prefix = inline.drop_last();
        lemma_inline_layer_inputs(sel, acc, prefix, target);
        lemma_apply_record_inputs(sel, inline_layer(acc, prefix, target), inline.last(), target);
        let all = inline_inputs(sel, inline, target);
        let before = inline_inputs(sel, prefix, target);
        assert forall|x: Seq<char>| all.contains(x) implies before.contains(x) || sel(
            inline.last().for_target(target),
        ).contains(x) by {
            let i = choose|i: int|
                0 <= i < inline.len() && sel((#[trigger] inline[i]).for_target(target)).contains(x);
            if i < inline.len() - 1 {
                assert(prefix[i] == inline[i]);
            }
        }
        assert forall|x: Seq<char>| before.contains(x) implies all.contains(x) by {
            let i = choose|i: int|
                0 <= i < prefix.len() && sel((#[trigger] prefix[i]).for_target(target)).contains(x);
            assert(inline[i] == prefix[i]);
        }
        assert(sel(inline_layer(acc, inline, target)) =~= sel(acc).union(all));
    }
}

/// The inputs of a composition: those of the starting environment, of the
/// ecosystem's default layer, of the registry's records for the detected
/// dependencies, and of the inline configuration.
pub proof fn lemma_compose_inputs(
    sel: spec_fn(TargetView) -> Set<Seq<char>>,
    acc: TargetView,
    lang: RustDependencyRegistryData,
    names: Seq<Seq<char>>,
    inline: Seq<RustDependencyData>,
    target: Seq<char>,
)
    requires
        is_input_set(sel),
    ensures
        sel(compose(acc, lang, names, inline, target)) == sel(acc).union(sel(lang.default@)).union(
            registry_inputs(sel, lang, names, target),
        ).union(inline_inputs(sel, inline, target)),
{
    let start = acc.merge(lang.default@);
    assert(sel(start) == sel(acc).union(sel(lang.default@)));
    lemma_registry_layer_inputs(sel, start, lang, names, target);
    lemma_inline_layer_inputs(sel, registry_layer(start, lang, names, target), inline, target);
}

/// Detecting more dependencies never removes an input: when every name of
/// `fewer` is also in `more`, each input composed for `fewer` is also
/// composed for `more`.
pub proof fn lemma_inputs_monotone(
    sel: spec_fn(TargetView) -> Set<Seq<char>>,
    acc: TargetView,
    lang: RustDependencyRegistryData,
    fewer: Seq<Seq<char>>,
    more: Seq<Seq<char>>,
    inline: Seq<RustDependencyData>,
    target: Seq<char>,
)
    requires
        is_input_set(sel),
        forall|i: int| 0 <= i < fewer.len() ==> more.contains(#[trigger] fewer[i]),
    ensures
        sel(compose(acc, lang, fewer, inline, target)).subset_of(sel(compose(acc, lang, more, inline, target))),
{
    lemma_compose_inputs(sel, acc, lang, fewer, inline, target);
    lemma_compose_inputs(sel, acc, lang, more, inline, target);
    assert forall|x: Seq<char>| registry_inputs(sel, lang, fewer, target).contains(x) implies registry_inputs(
        sel,
        lang,
        more,
        target,
    ).contains(x) by {
        let i = choose|i: int|
            0 <= i < fewer.len() && match lookup(lang.dependencies@, #[trigger] fewer[i]) {
                Some(rec) => sel(rec.for_target(target)).contains(x),
                None => false,
            };
        assert(more.contains(fewer[i]));
        let j = choose|j: int| 0 <= j < more.len() && more[j] == fewer[i];
        assert(more[j] == fewer[i]);
    }
}

/// Detecting more dependencies never removes a build input: when every name
/// of `fewer` is also in `more`, each build input composed for `fewer` is
/// also composed for `more`.
pub proof fn lemma_build_inputs_monotone(
    acc: TargetView,
    lang: RustDependencyRegistryData,
    fewer: Seq<Seq<char>>,
    more: Seq<Seq<char>>,
    inline: Seq<RustDependencyData>,
    target: Seq<char>,
)
    requires
        forall|i: int| 0 <= i < fewer.len() ==> more.contains(#[trigger] fewer[i]),
    ensures
        compose(acc, lang, fewer, inline, target).build_inputs.subset_of(
            compose(acc, lang, more, inline, target).build_inputs,
        ),
{
    lemma_input_sets();
    lemma_inputs_monotone(|v: TargetView| build_inputs_of(v), acc, lang, fewer, more, inline, target);
}

/// The inputs do not depend on the order in which names are handed in, nor
/// on repetitions: two lists with the same names compose the same inputs.
pub proof fn lemma_inputs_order_independent(
    sel: spec_fn(TargetView) -> Set<Seq<char>>,
    acc: TargetView,
    lang: RustDependencyRegistryData,
    a: Seq<Seq<char>>,
    b: Seq<Seq<char>>,
    inline: Seq<RustDependencyData>,
    target: Seq<char>,
)
    requires
        is_input_set(sel),
        a.to_set() == b.to_set(),
    ensures
        sel(compose(acc, lang, a, inline, target)) == sel(compose(acc, lang, b, inline, target)),
{
    assert forall|i: int| 0 <= i < a.len() implies b.contains(#[trigger] a[i]) by {
        assert(a.to_set().contains(a[i]));
        assert(b.to_set().contains(a[i]));
    }
    assert forall|i: int| 0 <= i < b.len() implies a.contains(#[trigger] b[i]) by {
        assert(b.to_set().contains(b[i]));
        assert(a.to_set().contains(b[i]));
    }
    lemma_inputs_monotone(sel, acc, lang, a, b, inline, target);
    lemma_inputs_monotone(sel, acc, lang, b, a, inline, target);
    assert(sel(compose(acc, lang, a, inline, target)) =~= sel(compose(acc, lang, b, inline, target)));
}

/// A record's layer for the platform takes precedence over its default: a
/// variable that the platform's layer sets has that layer's value.
pub proof fn lemma_target_override_wins(
    acc: TargetView,
    rec: RustDependencyData,
    target: Seq<char>,
    key: Seq<char>,
)
    requires
        lookup(rec.targets@, target) is Some,
        lookup(rec.targets@, target)->0@.environment_variables.contains_key(key),
    ensures
        acc.apply_record(rec, target).environment_variables[key]
            == lookup(rec.targets@, target)->0@.environment_variables[key],
{
}

/// Dependencies the registry does not know contribute nothing: when no name
/// of `names` has a record, the registry layer leaves the environment as it
/// was.
pub proof fn lemma_unknown_names_contribute_nothing(
    acc: TargetView,
    lang: RustDependencyRegistryData,
    names: Seq<Seq<char>>,
    target: Seq<char>,
)
    requires
        forall|i: int| 0 <= i < names.len() ==> lookup(lang.dependencies@, #[trigger] names[i]) is None,
    ensures
        registry_layer(acc, lang, names, target) == acc,
    decreases names.len(),
{
    if names.len() > 0 {
        let prefix = names.drop_last();
        assert forall|i: int| 0 <= i < prefix.len() implies lookup(lang.dependencies@, #[trigger] prefix[i]) is None by {
            assert(prefix[i] == names[i]);
        }
        lemma_unknown_names_contribute_nothing(acc, lang, prefix, target);
        assert(lookup(lang.dependencies@, names[names.len() - 1]) is None);
    }
}

/// What the record amounts to on a platform, applied on top of any
/// environment, decides the variables it sets.
pub proof fn lemma_apply_record_sets(
    acc: TargetView,
    rec: RustDependencyData,
    target: Seq<char>,
    key: Seq<char>,
)
    requires
        rec.for_target(target).environment_variables.contains_key(key),
    ensures
        acc.apply_record(rec, target).environment_variables[key] == rec.for_target(
            target,
        ).environment_variables[key],
{
}

/// The configuration a project declares for itself has the last word: a
/// variable that the last inline record sets on the platform has that
/// record's value in the composed environment, whatever the registry says.
pub proof fn lemma_inline_configuration_wins(
    acc: TargetView,
    lang: RustDependencyRegistryData,
    names: Seq<Seq<char>>,
    inline: Seq<RustDependencyData>,
    target: Seq<char>,
    key: Seq<char>,
)
    requires
        inline.len() > 0,
        inline.last().for_target(target).environment_variables.contains_key(key),
    ensures
        compose(acc, lang, names, inline, target).environment_variables[key] == inline.last().for_target(
            target,
        ).environment_variables[key],
{
    let before = inline_layer(
        registry_layer(acc.merge(lang.default@), lang, names, target),
        inline.drop_last(),
        target,
    );
    lemma_apply_record_sets(before, inline.last(), target, key);
}

/// The project's own configurations, taken key by key, depend only on what
/// each key's entries declare.
pub proof fn lemma_inline_in_order_by_key(
    e1: Seq<(Seq<char>, Option<RustDependencyData>)>,
    e2: Seq<(Seq<char>, Option<RustDependencyData>)>,
    keys: Seq<Seq<char>>,
)
    requires
        forall|n: Seq<char>| inline_named(e1, n) == inline_named(e2, n),
    ensures
        inline_in_order(e1, keys) == inline_in_order(e2, keys),
    decreases keys.len(),
{
    if keys.len() > 0 {
        lemma_inline_in_order_by_key(e1, e2, keys.drop_last());
        assert(inline_named(e1, keys.last()) == inline_named(e2, keys.last()));
    }
}

/// A Rust project's environment does not depend on the order in which its
/// packages are listed: two lists with the same names, whose packages of
/// each name declare the same configurations in the same order, compose the
/// same environment.
pub proof fn lemma_cargo_composition_order_independent(
    acc: TargetView,
    lang: RustDependencyRegistryData,
    p1: Seq<CargoMetadataPackage>,
    p2: Seq<CargoMetadataPackage>,
    target: Seq<char>,
)
    requires
        cargo_names(p1).to_set() == cargo_names(p2).to_set(),
        forall|n: Seq<char>| inline_named(cargo_entries(p1), n) == inline_named(cargo_entries(p2), n),
    ensures
        compose_cargo(acc, lang, p1, target) == compose_cargo(acc, lang, p2, target),
{
    let names = canonical(cargo_names(p1).to_set());
    lemma_inline_in_order_by_key(cargo_entries(p1), cargo_entries(p2), names);
}

/// A JavaScript project's environment does not depend on the order in which
/// its manifests are found, in the same sense.
pub proof fn lemma_package_json_composition_order_independent(
    acc: TargetView,
    lang: RustDependencyRegistryData,
    m1: Seq<PackageJson>,
    m2: Seq<PackageJson>,
    target: Seq<char>,
)
    requires
        package_json_names(m1).to_set() == package_json_names(m2).to_set(),
        package_json_keys(m1).to_set() == package_json_keys(m2).to_set(),
        forall|n: Seq<char>| inline_named(package_json_entries(m1), n) == inline_named(package_json_entries(m2), n),
    ensures
        compose_package_jsons(acc, lang, m1, target) == compose_package_jsons(acc, lang, m2, target),
{
    let keys = canonical(package_json_keys(m1).to_set());
    lemma_inline_in_order_by_key(package_json_entries(m1), package_json_entries(m2), keys);
}

} // verus!
