use example::env::{filtered_variables, has_prefix, lookup_variable};

fn variable(name: &str, value: &str) -> (String, String) {
    (name.to_string(), value.to_string())
}

fn sample_env() -> Vec<(String, String)> {
    vec![variable("FOO_A", "1"), variable("FOOBAR", "2"), variable("BAR", "3")]
}

#[test]
fn prefix_of_longer_text() {
    assert!(has_prefix("FOOBAR", "FOO"));
    assert!(has_prefix("FOO_A", "FOO"));
}

#[test]
fn prefix_equal_to_text() {
    assert!(has_prefix("FOO", "FOO"));
}

#[test]
fn empty_prefix_fits_every_text() {
    assert!(has_prefix("FOO", ""));
    assert!(has_prefix("", ""));
}

#[test]
fn prefix_longer_than_text() {
    assert!(!has_prefix("FO", "FOO"));
    assert!(!has_prefix("", "F"));
}

#[test]
fn prefix_differs_in_one_character() {
    assert!(!has_prefix("FOX_A", "FOO"));
    assert!(!has_prefix("BAR", "FOO"));
    assert!(!has_prefix("foo", "FOO"));
}

#[test]
fn prefix_must_stand_at_the_front() {
    assert!(!has_prefix("XFOO", "FOO"));
}

#[test]
fn prefix_goes_by_characters() {
    assert!(has_prefix("héllo", "hé"));
    assert!(!has_prefix("héllo", "he"));
    assert!(has_prefix("日本語", "日本"));
    assert_eq!(has_prefix("日本語", "日本"), "日本語".starts_with("日本"));
}

#[test]
fn lookup_of_unset_variable_is_absent() {
    let env = sample_env();
    assert_eq!(lookup_variable(&env, "RUST_LOG"), None);
}

#[test]
fn lookup_in_empty_environment_is_absent() {
    let env: Vec<(String, String)> = Vec::new();
    assert_eq!(lookup_variable(&env, "RUST_LOG"), None);
}

#[test]
fn lookup_of_set_variable_yields_name_and_value() {
    let mut env = sample_env();
    env.push(variable("RUST_LOG", "debug"));
    assert_eq!(lookup_variable(&env, "RUST_LOG"), Some(&variable("RUST_LOG", "debug")));
}

#[test]
fn lookup_of_variable_set_to_empty_value_is_present() {
    let env = vec![variable("RUST_LOG", "")];
    assert_eq!(lookup_variable(&env, "RUST_LOG"), Some(&variable("RUST_LOG", "")));
}

#[test]
fn lookup_needs_the_whole_name() {
    let env = vec![variable("RUST_LOG_STYLE", "always"), variable("RUST", "1")];
    assert_eq!(lookup_variable(&env, "RUST_LOG"), None);
}

#[test]
fn lookup_yields_the_first_of_several() {
    let env = vec![variable("A", "x"), variable("RUST_LOG", "info"), variable("RUST_LOG", "trace")];
    let found = lookup_variable(&env, "RUST_LOG");
    assert_eq!(found, Some(&variable("RUST_LOG", "info")));
    assert!(std::ptr::eq(found.unwrap(), &env[1]));
}

#[test]
fn test_1() {
    let env = sample_env();
    let envs = filtered_variables(&env, "FOO");
    assert_eq!(envs, vec![variable("FOO_A", "1"), variable("FOOBAR", "2")]);
    assert!(!envs.contains(&variable("BAR", "3")));
}

#[test]
fn main_test_1() {
    let env = vec![variable("foo_a", "1"), variable("FOO", ""), variable("Foo", "2")];
    let envs = filtered_variables(&env, "FOO");
    assert_eq!(envs, vec![variable("FOO", "")]);
}

#[test]
fn main_test_2() {
    let env = vec![variable("BAR", "3"), variable("FOO", "0"), variable("XFOO", "4")];
    let envs = filtered_variables(&env, "FOO");
    assert_eq!(envs, vec![variable("FOO", "0")]);
}

#[test]
fn filter_keeps_the_order_of_the_snapshot() {
    let env = vec![
        variable("FOO_Z", "26"),
        variable("PATH", "/bin"),
        variable("FOO_A", "1"),
        variable("FOO_Z", "again"),
    ];
    let envs = filtered_variables(&env, "FOO");
    assert_eq!(
        envs,
        vec![variable("FOO_Z", "26"), variable("FOO_A", "1"), variable("FOO_Z", "again")]
    );
}

#[test]
fn filter_agrees_with_the_standard_prefix_test() {
    let env = sample_env();
    let expected: Vec<(String, String)> =
        env.iter().filter(|(k, _)| k.starts_with("FOO")).cloned().collect();
    assert_eq!(filtered_variables(&env, "FOO"), expected);
}

#[test]
fn filter_with_empty_prefix_keeps_everything() {
    let env = sample_env();
    assert_eq!(filtered_variables(&env, ""), env);
}

#[test]
fn filter_of_empty_environment_is_empty() {
    let env: Vec<(String, String)> = Vec::new();
    assert_eq!(filtered_variables(&env, "FOO"), Vec::<(String, String)>::new());
}

#[test]
fn filter_without_match_is_empty() {
    let env = vec![variable("BAR", "3"), variable("FO", "2")];
    assert_eq!(filtered_variables(&env, "FOO"), Vec::<(String, String)>::new());
}
