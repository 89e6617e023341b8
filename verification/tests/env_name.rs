use csm::env::{determine_env_name, env_name};
use csm::ExitCode;

/// The `name` key of an env file's text, where it parses and has one.
fn name_in_env_file(text: &str) -> Option<String> {
    let value: serde_yaml_ng::Value = serde_yaml_ng::from_str(text).ok()?;
    value.get("name").and_then(|n| n.as_str()).map(String::from)
}

#[test]
fn test_determine_env_name_with_cli_arg() {
    let result = determine_env_name(Some("test-env".to_string()), None, None);
    assert_eq!(result, Some("test-env".to_string()));
}

#[test]
fn test_determine_env_name_cli_arg_overrides_yaml() {
    let yaml_name = name_in_env_file("name: yaml-env-name");
    assert_eq!(yaml_name, Some("yaml-env-name".to_string()));
    let result = determine_env_name(
        Some("cli-override".to_string()),
        yaml_name,
        Some("csm_test_override".to_string()),
    );
    assert_eq!(result, Some("cli-override".to_string()));
}

#[test]
fn test_determine_env_name_robotmk_env_yaml() {
    // (dir_name, yaml, expected)
    let test_cases = vec![
        (
            "valid_yaml",
            Some("name: yaml-env-name\nother_field: value"),
            "yaml-env-name",
        ),
        (
            "yaml_no_name",
            Some("other_field: value\nyet_another: field"),
            "yaml_no_name",
        ),
        (
            "invalid_yaml",
            Some("invalid: yaml: content: \"unclosed"),
            "invalid_yaml",
        ),
        ("no_yaml", None, "no_yaml"),
    ];

    for (dir_name, yaml, expected) in test_cases {
        let yaml_name = yaml.and_then(name_in_env_file);
        let result = determine_env_name(None, yaml_name, Some(dir_name.to_string()));
        assert_eq!(result.unwrap(), expected, "Failed case: {}", dir_name);
    }
}

#[test]
fn env_name_fails_without_any_source() {
    assert_eq!(determine_env_name(None, None, None), None);
    assert_eq!(env_name(None, None, None), Err(ExitCode::Failure));
}

#[test]
fn env_name_prefers_env_file_over_directory() {
    assert_eq!(
        env_name(None, Some("from-file".to_string()), Some("dir".to_string())),
        Ok("from-file".to_string())
    );
}
