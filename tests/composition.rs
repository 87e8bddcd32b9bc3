use std::collections::{HashMap, HashSet};

use riff::configuration::RustDependencyConfiguration;
use riff::dev_env::{DetectedLanguage, DevEnvironment};
use riff::metadata::{
    is_package_json_path, CargoMetadata, CargoMetadataPackage, PackageJson, PackageJsonConfig,
    RiffMetadata,
};
use riff::target::{RustDependencyData, RustDependencyRegistryData, RustDependencyTargetData};

fn strings(items: &[&str]) -> Vec<String> {
    items.iter().map(|s| s.to_string()).collect()
}

fn pairs(items: &[(&str, &str)]) -> Vec<(String, String)> {
    items.iter().map(|(k, v)| (k.to_string(), v.to_string())).collect()
}

fn set(items: &[&str]) -> HashSet<String> {
    items.iter().map(|s| s.to_string()).collect()
}

fn map(items: &[(&str, &str)]) -> HashMap<String, String> {
    items.iter().map(|(k, v)| (k.to_string(), v.to_string())).collect()
}

fn layer(build: &[&str], env: &[(&str, &str)], runtime: &[&str]) -> RustDependencyTargetData {
    RustDependencyTargetData {
        build_inputs: strings(build),
        environment_variables: pairs(env),
        runtime_inputs: strings(runtime),
    }
}

fn host() -> String {
    format!("{}", target_lexicon::HOST)
}

fn package(name: &str, riff: Option<RustDependencyData>) -> CargoMetadataPackage {
    CargoMetadataPackage {
        name: name.to_string(),
        metadata: Some(RiffMetadata { riff }),
    }
}

fn as_set(v: &[String]) -> HashSet<String> {
    v.iter().cloned().collect()
}

fn as_map(v: &[(String, String)]) -> HashMap<String, String> {
    v.iter().cloned().collect()
}

#[test]
fn try_apply() {
    let mut dev_env = DevEnvironment::new();
    let data = RustDependencyData {
        default: layer(
            &["default"],
            &[("DEFAULT_VAR", "default"), ("CONFLICT", "default")],
            &["default"],
        ),
        targets: vec![(
            host(),
            layer(
                &["target_specific"],
                &[("TARGET_VAR", "target_specific"), ("CONFLICT", "target_specific")],
                &["target_specific"],
            ),
        )],
    };

    data.apply(&mut dev_env);

    assert_eq!(as_set(&dev_env.build_inputs), set(&["default", "target_specific"]));
    assert_eq!(
        as_map(&dev_env.environment_variables),
        map(&[
            ("DEFAULT_VAR", "default"),
            ("TARGET_VAR", "target_specific"),
            ("CONFLICT", "target_specific"),
        ])
    );
    assert_eq!(as_set(&dev_env.runtime_inputs), set(&["default", "target_specific"]));
}

#[test]
fn build_input_merge() {
    let data = RustDependencyData {
        default: layer(&["default"], &[], &[]),
        targets: vec![(host(), layer(&["target_specific"], &[], &[]))],
    };
    let merged = data.build_inputs();
    assert_eq!(as_set(&merged), set(&["default", "target_specific"]));
}

#[test]
fn environment_variables_merge() {
    let data = RustDependencyData {
        default: layer(&[], &[("DEFAULT_VAR", "default"), ("CONFLICT", "default")], &[]),
        targets: vec![(
            host(),
            layer(&[], &[("TARGET_VAR", "target_specific"), ("CONFLICT", "target_specific")], &[]),
        )],
    };
    let merged = data.environment_variables();
    assert_eq!(
        as_map(&merged),
        map(&[
            ("DEFAULT_VAR", "default"),
            ("TARGET_VAR", "target_specific"),
            ("CONFLICT", "target_specific"),
        ])
    );
}

#[test]
fn runtime_input_merge() {
    let data = RustDependencyData {
        default: layer(&[], &[], &["default"]),
        targets: vec![(host(), layer(&[], &[], &["target_specific"]))],
    };
    let merged = data.runtime_inputs();
    assert_eq!(as_set(&merged), set(&["default", "target_specific"]));
}

#[test]
fn dev_env_to_flake() {
    let dev_env = DevEnvironment {
        build_inputs: strings(&["cargo", "hello"]),
        environment_variables: pairs(&[("HELLO", "WORLD"), ("GOODBYE", "WORLD")]),
        runtime_inputs: strings(&["nix", "libGL"]),
        detected_languages: vec![DetectedLanguage::Rust],
    };

    let flake = dev_env.to_flake();
    assert!(flake.contains("buildInputs = [") && flake.contains("cargo") && flake.contains("hello"));
    assert!(flake.contains(r#""GOODBYE" = "WORLD""#));
    assert!(flake.contains(r#""HELLO" = "WORLD""#));
    assert!(
        flake.contains(r#""LD_LIBRARY_PATH" = "#)
            && flake.contains("${lib.getLib nix}/lib")
            && flake.contains("${lib.getLib libGL}/lib")
    );
}

#[test]
fn flake_lines_are_exact() {
    let dev_env = DevEnvironment {
        build_inputs: strings(&["cargo", "hello"]),
        environment_variables: pairs(&[("HELLO", "WORLD")]),
        runtime_inputs: strings(&["nix", "libGL"]),
        detected_languages: vec![],
    };
    let flake = dev_env.to_flake();
    assert!(flake.contains("buildInputs = [ cargo hello ];\n"));
    assert!(flake.contains("          \"HELLO\" = \"WORLD\";\n"));
    assert!(flake.contains(
        "          \"LD_LIBRARY_PATH\" = \"${lib.getLib nix}/lib:${lib.getLib libGL}/lib\";\n"
    ));
}

#[test]
fn flake_without_runtime_inputs_has_no_library_path() {
    let dev_env = DevEnvironment::new();
    let flake = dev_env.to_flake();
    assert!(flake.contains("buildInputs = [  ];"));
    assert!(!flake.contains("LD_LIBRARY_PATH"));
}

#[test]
fn dev_env_detect_unsupported_project() {
    let mut dev_env = DevEnvironment::new();
    let detect = dev_env.detect(false, false);
    assert!(detect.is_none());
    assert!(dev_env.detected_languages.is_empty());
}

#[test]
fn detect_prefers_cargo_and_records_language() {
    let mut dev_env = DevEnvironment::new();
    assert_eq!(dev_env.detect(true, true), Some(DetectedLanguage::Rust));
    assert_eq!(dev_env.detect(false, true), Some(DetectedLanguage::Javascript));
    assert_eq!(dev_env.detect(true, false), Some(DetectedLanguage::Rust));
    assert_eq!(
        dev_env.detected_languages,
        vec![DetectedLanguage::Rust, DetectedLanguage::Javascript]
    );
}

fn rust_registry(dependencies: Vec<(String, RustDependencyData)>) -> RustDependencyRegistryData {
    RustDependencyRegistryData {
        default: layer(&["cargo", "rustc", "rustfmt"], &[], &[]),
        dependencies,
    }
}

fn record(default: RustDependencyTargetData) -> RustDependencyData {
    RustDependencyData { default, targets: vec![] }
}

#[test]
fn union_of_default_and_dependency_inputs() {
    let lang = rust_registry(vec![(
        "openssl-sys".to_string(),
        record(layer(&["openssl"], &[], &[])),
    )]);
    let metadata = CargoMetadata { packages: vec![package("openssl-sys", None)] };
    let mut dev_env = DevEnvironment::new();
    dev_env.add_deps_from_cargo_metadata(&lang, &metadata);
    assert_eq!(
        as_set(&dev_env.build_inputs),
        set(&["cargo", "rustc", "rustfmt", "openssl"])
    );
    assert_eq!(dev_env.build_inputs.len(), 4);
}

#[test]
fn target_override_beats_dependency_default() {
    let foo = RustDependencyData {
        default: layer(&[], &[("X", "1")], &[]),
        targets: vec![(host(), layer(&[], &[("X", "2")], &[]))],
    };
    let lang = rust_registry(vec![("foo".to_string(), foo)]);
    let metadata = CargoMetadata { packages: vec![package("foo", None)] };
    let mut dev_env = DevEnvironment::new();
    dev_env.add_deps_from_cargo_metadata(&lang, &metadata);
    assert_eq!(as_map(&dev_env.environment_variables), map(&[("X", "2")]));
}

#[test]
fn other_target_override_is_ignored() {
    let foo = RustDependencyData {
        default: layer(&[], &[("X", "1")], &[]),
        targets: vec![("not-a-real-triple".to_string(), layer(&["extra"], &[("X", "2")], &[]))],
    };
    let lang = rust_registry(vec![("foo".to_string(), foo)]);
    let metadata = CargoMetadata { packages: vec![package("foo", None)] };
    let mut dev_env = DevEnvironment::new();
    dev_env.add_deps_from_cargo_metadata_for_target(&lang, &metadata, &host());
    assert_eq!(as_map(&dev_env.environment_variables), map(&[("X", "1")]));
    assert!(!dev_env.build_inputs.contains(&"extra".to_string()));
}

#[test]
fn unmatched_dependency_adds_nothing() {
    let lang = rust_registry(vec![(
        "openssl-sys".to_string(),
        record(layer(&["openssl"], &[("A", "b")], &["lib"])),
    )]);
    let metadata = CargoMetadata { packages: vec![package("bar", None)] };
    let mut dev_env = DevEnvironment::new();
    dev_env.add_deps_from_cargo_metadata(&lang, &metadata);
    assert_eq!(as_set(&dev_env.build_inputs), set(&["cargo", "rustc", "rustfmt"]));
    assert!(dev_env.environment_variables.is_empty());
    assert!(dev_env.runtime_inputs.is_empty());
}

#[test]
fn more_dependencies_never_drop_build_inputs() {
    let lang = rust_registry(vec![
        ("a".to_string(), record(layer(&["liba"], &[], &[]))),
        ("b".to_string(), record(layer(&["libb"], &[], &[]))),
    ]);
    let fewer = CargoMetadata { packages: vec![package("a", None)] };
    let more = CargoMetadata {
        packages: vec![package("b", None), package("c", None), package("a", None)],
    };
    let mut small = DevEnvironment::new();
    small.add_deps_from_cargo_metadata(&lang, &fewer);
    let mut large = DevEnvironment::new();
    large.add_deps_from_cargo_metadata(&lang, &more);
    let small_set = as_set(&small.build_inputs);
    let large_set = as_set(&large.build_inputs);
    assert!(small_set.is_subset(&large_set));
    assert_eq!(large_set, set(&["cargo", "rustc", "rustfmt", "liba", "libb"]));
}

#[test]
fn inline_configuration_applies_last() {
    let lang = rust_registry(vec![(
        "dep".to_string(),
        record(layer(&[], &[("MODE", "registry")], &[])),
    )]);
    let own = record(layer(&["hello"], &[("MODE", "project"), ("HI", "BYE")], &["libGL"]));
    // The project's own package comes first, yet its configuration wins.
    let metadata = CargoMetadata {
        packages: vec![package("riff-test", Some(own)), package("dep", None)],
    };
    let mut dev_env = DevEnvironment::new();
    dev_env.add_deps_from_cargo_metadata(&lang, &metadata);
    assert_eq!(
        as_map(&dev_env.environment_variables),
        map(&[("MODE", "project"), ("HI", "BYE")])
    );
    assert!(dev_env.build_inputs.contains(&"hello".to_string()));
    assert!(dev_env.runtime_inputs.contains(&"libGL".to_string()));
}

#[test]
fn later_dependency_overrides_earlier_variable() {
    let lang = rust_registry(vec![
        ("first".to_string(), record(layer(&[], &[("V", "first")], &[]))),
        ("second".to_string(), record(layer(&[], &[("V", "second")], &[]))),
    ]);
    let metadata = CargoMetadata {
        packages: vec![package("first", None), package("second", None)],
    };
    let mut dev_env = DevEnvironment::new();
    dev_env.add_deps_from_cargo_metadata(&lang, &metadata);
    assert_eq!(dev_env.environment_variables, pairs(&[("V", "second")]));
}

#[test]
fn javascript_manifests_compose() {
    let lang = RustDependencyRegistryData {
        default: layer(&["nodejs", "yarn"], &[], &[]),
        dependencies: vec![("sharp".to_string(), record(layer(&["vips"], &[], &[])))],
    };
    let manifests = vec![
        PackageJson { name: Some("sharp".to_string()), config: None },
        PackageJson {
            name: None,
            config: Some(PackageJsonConfig { riff: Some(record(layer(&[], &[("K", "v")], &[]))) }),
        },
    ];
    let mut dev_env = DevEnvironment::new();
    dev_env.add_deps_from_package_jsons(&lang, &manifests);
    assert_eq!(as_set(&dev_env.build_inputs), set(&["nodejs", "yarn", "vips"]));
    assert_eq!(as_map(&dev_env.environment_variables), map(&[("K", "v")]));
}

#[test]
fn package_json_paths_outside_tests_only() {
    assert!(is_package_json_path(&strings(&["project", "web", "package.json"])));
    assert!(!is_package_json_path(&strings(&["project", "tests", "package.json"])));
    assert!(!is_package_json_path(&strings(&["project", "test", "package.json"])));
    assert!(!is_package_json_path(&strings(&["project", "package.lock"])));
    assert!(!is_package_json_path(&strings(&[])));
}

#[test]
fn configuration_overrides_set_variables() {
    let mut dev_env = DevEnvironment::new();
    let first = RustDependencyConfiguration {
        build_inputs: strings(&["a"]),
        environment_variables: pairs(&[("X", "1")]),
        ld_library_path_inputs: strings(&["liba"]),
    };
    assert!(first.try_apply(&mut dev_env).is_empty());
    let second = RustDependencyConfiguration {
        build_inputs: strings(&["b"]),
        environment_variables: pairs(&[("Y", "2"), ("X", "3"), ("Z", "4"), ("Y", "5")]),
        ld_library_path_inputs: strings(&["libb"]),
    };
    assert_eq!(second.try_apply(&mut dev_env), strings(&["X", "Y"]));
    assert_eq!(as_set(&dev_env.build_inputs), set(&["a", "b"]));
    assert_eq!(
        as_map(&dev_env.environment_variables),
        map(&[("X", "3"), ("Y", "5"), ("Z", "4")])
    );
    assert_eq!(as_set(&dev_env.runtime_inputs), set(&["liba", "libb"]));
}

#[test]
fn package_order_does_not_decide_variables() {
    let lang = rust_registry(vec![
        ("a".to_string(), record(layer(&[], &[("X", "1")], &[]))),
        ("b".to_string(), record(layer(&[], &[("X", "2")], &[]))),
    ]);
    let forward = CargoMetadata { packages: vec![package("a", None), package("b", None)] };
    let backward = CargoMetadata { packages: vec![package("b", None), package("a", None)] };
    let mut one = DevEnvironment::new();
    one.add_deps_from_cargo_metadata(&lang, &forward);
    let mut two = DevEnvironment::new();
    two.add_deps_from_cargo_metadata(&lang, &backward);
    assert_eq!(one.environment_variables, pairs(&[("X", "2")]));
    assert_eq!(two.environment_variables, pairs(&[("X", "2")]));
    assert_eq!(as_set(&one.build_inputs), as_set(&two.build_inputs));
}

#[test]
fn manifest_order_does_not_decide_variables() {
    let lang = RustDependencyRegistryData { default: layer(&[], &[], &[]), dependencies: vec![] };
    let own = |v: &str| Some(PackageJsonConfig { riff: Some(record(layer(&[], &[("K", v)], &[]))) });
    let m1 = PackageJson { name: Some("zeta".to_string()), config: own("z") };
    let m2 = PackageJson { name: Some("alpha".to_string()), config: own("a") };
    let m3 = PackageJson { name: Some("zeta".to_string()), config: own("z") };
    let m4 = PackageJson { name: Some("alpha".to_string()), config: own("a") };
    let mut one = DevEnvironment::new();
    one.add_deps_from_package_jsons(&lang, &vec![m1, m2]);
    let mut two = DevEnvironment::new();
    two.add_deps_from_package_jsons(&lang, &vec![m4, m3]);
    assert_eq!(one.environment_variables, pairs(&[("K", "z")]));
    assert_eq!(two.environment_variables, pairs(&[("K", "z")]));
}

#[test]
fn detected_rust_project_gets_its_own_configuration() {
    let lang = rust_registry(vec![]);
    let own = record(layer(&["hello"], &[("HI", "BYE")], &["libGL"]));
    let metadata = CargoMetadata { packages: vec![package("riff-test", Some(own))] };
    let mut dev_env = DevEnvironment::new();
    dev_env.add_rust_project(&lang, &metadata);
    assert!(dev_env.build_inputs.contains(&"hello".to_string()));
    assert_eq!(as_map(&dev_env.environment_variables).get("HI"), Some(&"BYE".to_string()));
    assert!(dev_env.runtime_inputs.contains(&"libGL".to_string()));
    assert_eq!(dev_env.detected_languages, vec![DetectedLanguage::Rust]);
}
