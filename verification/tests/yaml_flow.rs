use proxypal_config::yaml::{get_config_yaml, save_config_yaml, ReadOutcome, StepOutcome};

#[test]
fn absent_file_reads_as_empty_string() {
    assert_eq!(get_config_yaml(ReadOutcome::Absent), Ok(String::new()));
}

#[test]
fn content_comes_back_exactly() {
    let cases = [
        String::new(),
        "providers:\n  - name: openai\n    port: 8080\n".to_string(),
        "key: \"v: [1, 2]\" # comment\n---\nother: &anchor {a: 1}\n".to_string(),
        "unicode: \u{00e9}\u{4e16}\u{754c}\n".to_string(),
    ];
    for text in cases {
        assert_eq!(get_config_yaml(ReadOutcome::Content(text.clone())), Ok(text));
    }
}

#[test]
fn read_failure_carries_io_error_text() {
    let r = get_config_yaml(ReadOutcome::Failed("permission denied (os error 13)".to_string()));
    assert_eq!(
        r,
        Err("Failed to read config YAML: permission denied (os error 13)".to_string())
    );
}

#[test]
fn save_succeeds_when_both_steps_do() {
    assert_eq!(save_config_yaml(StepOutcome::Done, Some(StepOutcome::Done)), Ok(()));
}

#[test]
fn save_reports_directory_creation_failure() {
    let r = save_config_yaml(
        StepOutcome::Failed("permission denied (os error 13)".to_string()),
        None,
    );
    assert_eq!(
        r,
        Err("Failed to create config dir: permission denied (os error 13)".to_string())
    );
}

#[test]
fn save_reports_write_failure() {
    let r = save_config_yaml(
        StepOutcome::Done,
        Some(StepOutcome::Failed("read-only file system (os error 30)".to_string())),
    );
    assert_eq!(
        r,
        Err("Failed to save config YAML: read-only file system (os error 30)".to_string())
    );
}
