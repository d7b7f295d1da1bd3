use qwen_session::command::{
    apply_qwen_cli_overrides, apply_qwen_env_overrides, build_qwen_headless_command,
    headless_round_command, is_ci_variable, CommandPlan, EnvVar,
};
use qwen_session::config::{HeadlessConfig, OpenAiConfig};

fn strings(items: &[&str]) -> Vec<String> {
    items.iter().map(|s| s.to_string()).collect()
}

fn var(name: &str, value: &str) -> EnvVar {
    EnvVar { name: name.to_string(), value: value.to_string() }
}

#[test]
fn plain_command() {
    let plan = build_qwen_headless_command("say hi", false, false);
    assert_eq!(
        plan,
        CommandPlan {
            program: "qwen".to_string(),
            args: strings(&["-p", "say hi", "--output-format", "stream-json", "--include-partial-messages"]),
            current_dir: None,
            env_remove: Vec::new(),
            env_set: Vec::new(),
        }
    );
}

#[test]
fn continuing_command_has_the_flag_last() {
    let plan = build_qwen_headless_command("next", true, false);
    assert_eq!(
        plan.args,
        strings(&["-p", "next", "--output-format", "stream-json", "--include-partial-messages", "--continue"])
    );
}

#[test]
fn windows_command_goes_through_the_interpreter() {
    let plan = build_qwen_headless_command("p", true, true);
    assert_eq!(plan.program, "cmd.exe");
    assert_eq!(
        plan.args,
        strings(&[
            "/C",
            "qwen.cmd",
            "-p",
            "p",
            "--output-format",
            "stream-json",
            "--include-partial-messages",
            "--continue"
        ])
    );
}

#[test]
fn cli_overrides_add_directory_and_mode() {
    let mut plan = build_qwen_headless_command("p", false, false);
    let config = HeadlessConfig {
        working_directory: Some("/work".to_string()),
        approval_mode: Some("plan".to_string()),
    };
    apply_qwen_cli_overrides(&mut plan, Some(&config));
    assert_eq!(plan.current_dir, Some("/work".to_string()));
    assert_eq!(
        plan.args[5..].to_vec(),
        strings(&["--include-directories", "/work", "--approval-mode", "plan"])
    );
}

#[test]
fn cli_overrides_with_one_field() {
    let mut plan = build_qwen_headless_command("p", false, false);
    let config = HeadlessConfig { working_directory: None, approval_mode: Some("yolo".to_string()) };
    apply_qwen_cli_overrides(&mut plan, Some(&config));
    assert_eq!(plan.current_dir, None);
    assert_eq!(plan.args[5..].to_vec(), strings(&["--approval-mode", "yolo"]));
}

#[test]
fn absent_cli_overrides_change_nothing() {
    let mut plan = build_qwen_headless_command("p", true, false);
    apply_qwen_cli_overrides(&mut plan, None);
    assert_eq!(plan, build_qwen_headless_command("p", true, false));
}

#[test]
fn ci_variables_are_recognised() {
    assert!(is_ci_variable("CI"));
    assert!(is_ci_variable("CONTINUOUS_INTEGRATION"));
    assert!(is_ci_variable("CI_JOB_ID"));
    assert!(is_ci_variable("CI_"));
    assert!(!is_ci_variable("ci"));
    assert!(!is_ci_variable("CIRCLE"));
    assert!(!is_ci_variable("MY_CI"));
    assert!(!is_ci_variable(""));
}

#[test]
fn env_overrides_remove_ci_and_keep_term() {
    let mut plan = build_qwen_headless_command("p", false, false);
    let keys = strings(&["PATH", "CI", "TERM", "CI_COMMIT", "HOME", "CONTINUOUS_INTEGRATION"]);
    apply_qwen_env_overrides(&mut plan, &keys, None);
    assert_eq!(plan.env_remove, strings(&["CI", "CI_COMMIT", "CONTINUOUS_INTEGRATION"]));
    assert!(plan.env_set.is_empty());
}

#[test]
fn missing_term_gets_a_default() {
    let mut plan = build_qwen_headless_command("p", false, false);
    apply_qwen_env_overrides(&mut plan, &strings(&["PATH", "TERMINAL"]), None);
    assert!(plan.env_remove.is_empty());
    assert_eq!(plan.env_set, vec![var("TERM", "xterm-256color")]);
}

#[test]
fn endpoint_overrides_are_set_in_order() {
    let mut plan = build_qwen_headless_command("p", false, false);
    let config = OpenAiConfig {
        openai_api_key: Some("k".to_string()),
        openai_base_url: None,
        openai_model: Some("m".to_string()),
    };
    apply_qwen_env_overrides(&mut plan, &strings(&["TERM"]), Some(&config));
    assert_eq!(plan.env_set, vec![var("OPENAI_API_KEY", "k"), var("OPENAI_MODEL", "m")]);
    let mut full = build_qwen_headless_command("p", false, false);
    let all = OpenAiConfig {
        openai_api_key: Some("k".to_string()),
        openai_base_url: Some("u".to_string()),
        openai_model: Some("m".to_string()),
    };
    apply_qwen_env_overrides(&mut full, &Vec::new(), Some(&all));
    assert_eq!(
        full.env_set,
        vec![
            var("TERM", "xterm-256color"),
            var("OPENAI_API_KEY", "k"),
            var("OPENAI_BASE_URL", "u"),
            var("OPENAI_MODEL", "m")
        ]
    );
}

#[test]
fn round_command_applies_everything() {
    let headless = HeadlessConfig { working_directory: Some("/w".to_string()), approval_mode: None };
    let openai = OpenAiConfig { openai_model: Some("m".to_string()), ..OpenAiConfig::default() };
    let plan = headless_round_command(
        "go",
        true,
        Some(&openai),
        Some(&headless),
        &strings(&["CI", "TERM"]),
        false,
    );
    assert_eq!(
        plan,
        CommandPlan {
            program: "qwen".to_string(),
            args: strings(&[
                "-p",
                "go",
                "--output-format",
                "stream-json",
                "--include-partial-messages",
                "--continue",
                "--include-directories",
                "/w"
            ]),
            current_dir: Some("/w".to_string()),
            env_remove: strings(&["CI"]),
            env_set: vec![var("OPENAI_MODEL", "m")],
        }
    );
}
