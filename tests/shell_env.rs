use riff::cli::{has_flag, telemetry_allowed_by_env};
use riff::nix_dev_env::{
    choose_shell, exit_status_to_exit_code, next_nesting_level, parse_u32, NixDevEnv, Variable,
};

fn var(name: &str, value: Variable) -> (String, Variable) {
    (name.to_string(), value)
}

#[test]
fn exports_skip_ignored_and_prepend_inherited() {
    let env = NixDevEnv {
        variables: vec![
            var("HOME", Variable::Exported("/homeless".to_string())),
            var("PATH", Variable::Exported("/nix/bin".to_string())),
            var("XDG_DATA_DIRS", Variable::Exported("/nix/share".to_string())),
            var("CC", Variable::Exported("gcc".to_string())),
            var("local", Variable::Var("x".to_string())),
            var("list", Variable::Array(vec!["a".to_string()])),
        ],
    };
    let inherited = vec![("PATH".to_string(), "/usr/bin".to_string())];
    let exports = env.exports(&inherited);
    assert_eq!(
        exports,
        vec![
            ("PATH".to_string(), "/nix/bin:/usr/bin".to_string()),
            ("XDG_DATA_DIRS".to_string(), "/nix/share".to_string()),
            ("CC".to_string(), "gcc".to_string()),
        ]
    );
}

#[test]
fn nesting_level_counts_up() {
    assert_eq!(next_nesting_level(None), "1");
    assert_eq!(next_nesting_level(Some("3")), "4");
    assert_eq!(next_nesting_level(Some("+7")), "8");
    assert_eq!(next_nesting_level(Some("x")), "1");
    assert_eq!(next_nesting_level(Some("")), "1");
    assert_eq!(next_nesting_level(Some("-1")), "1");
    assert_eq!(next_nesting_level(Some("4294967295")), "4294967296");
    assert_eq!(next_nesting_level(Some("4294967296")), "1");
}

#[test]
fn parse_matches_std() {
    for text in ["0", "42", "+42", "", "+", "-0", "007", "4294967295", "4294967296", "1 ", "9x"] {
        assert_eq!(parse_u32(text), text.parse::<u32>().ok(), "{text}");
    }
}

#[test]
fn shell_choice_order() {
    assert_eq!(choose_shell(Some("zsh".to_string()), Some("fish".to_string())), "zsh");
    assert_eq!(choose_shell(None, Some("fish".to_string())), "fish");
    assert_eq!(choose_shell(None, None), "bash");
}

#[test]
fn exit_codes_keep_the_low_byte() {
    assert_eq!(exit_status_to_exit_code(Some(6)), 6);
    assert_eq!(exit_status_to_exit_code(Some(256)), 0);
    assert_eq!(exit_status_to_exit_code(Some(-1)), 255);
    assert_eq!(exit_status_to_exit_code(None), 0);
}

fn args(items: &[&str]) -> Vec<String> {
    items.iter().map(|s| s.to_string()).collect()
}

#[test]
fn flags_count_only_before_separator() {
    let flags = args(&["--debug"]);
    assert!(has_flag(&args(&["riff", "--debug", "shell"]), &flags));
    assert!(!has_flag(&args(&["riff", "run", "--", "prog", "--debug"]), &flags));
    assert!(!has_flag(&args(&["riff", "shell"]), &flags));
    assert!(has_flag(
        &args(&["riff", "--offline", "run", "--", "x"]),
        &args(&["--disable-telemetry", "--offline"])
    ));
}

#[test]
fn telemetry_env_values() {
    assert!(telemetry_allowed_by_env(None));
    assert!(telemetry_allowed_by_env(Some(&"false".to_string())));
    assert!(telemetry_allowed_by_env(Some(&"0".to_string())));
    assert!(telemetry_allowed_by_env(Some(&String::new())));
    assert!(!telemetry_allowed_by_env(Some(&"1".to_string())));
    assert!(!telemetry_allowed_by_env(Some(&"true".to_string())));
}
