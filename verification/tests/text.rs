use dev_session::environment::{detect, Environment, DEFAULT_FILE, FLAKE_FILE, SHELL_FILE};
use dev_session::expand::{expand_env_vars, LookupFailure};
use dev_session::text::{decimal, target};

#[test]
fn decimal_of_small_numbers() {
    assert_eq!(decimal(0), "0");
    assert_eq!(decimal(1), "1");
    assert_eq!(decimal(9), "9");
    assert_eq!(decimal(10), "10");
    assert_eq!(decimal(11), "11");
    assert_eq!(decimal(100), "100");
    assert_eq!(decimal(1234567890), "1234567890");
}

#[test]
fn decimal_agrees_with_the_standard_library() {
    for n in 0..2000usize {
        assert_eq!(decimal(n), n.to_string());
    }
    assert_eq!(decimal(usize::MAX), usize::MAX.to_string());
}

#[test]
fn target_joins_title_and_index() {
    assert_eq!(target("work", 1), "work:1");
    assert_eq!(target("work", 27), "work:27");
    assert_eq!(target("", 3), ":3");
    assert_eq!(target("a:b", 10), "a:b:10");
}

#[test]
fn flake_has_priority() {
    assert_eq!(detect(true, true, false), Environment::FlakeBased);
    assert_eq!(detect(true, true, true), Environment::FlakeBased);
    assert_eq!(detect(true, false, true), Environment::FlakeBased);
    assert_eq!(detect(true, false, false), Environment::FlakeBased);
}

#[test]
fn shell_descriptor_comes_before_default_descriptor() {
    assert_eq!(detect(false, true, true), Environment::LegacyNixShell);
    assert_eq!(detect(false, true, false), Environment::LegacyNixShell);
    assert_eq!(detect(false, false, true), Environment::LegacyDefaultNix);
}

#[test]
fn no_descriptor_no_strategy() {
    assert_eq!(detect(false, false, false), Environment::Missing);
}

#[test]
fn descriptor_file_names() {
    assert_eq!(FLAKE_FILE, "flake.nix");
    assert_eq!(SHELL_FILE, "shell.nix");
    assert_eq!(DEFAULT_FILE, "default.nix");
}

#[test]
fn plain_path_is_not_changed() {
    assert_eq!(expand_env_vars("/tmp/proj"), Ok("/tmp/proj".to_string()));
    assert_eq!(expand_env_vars(""), Ok(String::new()));
    assert_eq!(expand_env_vars("a/~/b"), Ok("a/~/b".to_string()));
}

#[test]
fn doubled_dollar_is_one_dollar() {
    assert_eq!(expand_env_vars("a$$b"), Ok("a$b".to_string()));
}

#[test]
fn unknown_variable_is_named() {
    assert_eq!(
        expand_env_vars("/x/$DEV_SESSION_NO_SUCH_VARIABLE_4711/y"),
        Err(LookupFailure { var_name: "DEV_SESSION_NO_SUCH_VARIABLE_4711".to_string() })
    );
}
