use qwen_session::config::{
    is_known_approval_mode, same_opt_headless, sanitize_approval_mode, sanitize_headless_config,
    sanitize_openai_config, sanitize_optional_env_value, HeadlessConfig, OpenAiConfig,
};

fn text(s: &str) -> Option<String> {
    Some(s.to_string())
}

#[test]
fn value_is_trimmed() {
    assert_eq!(sanitize_optional_env_value(text("  sk-123 \t\n")), text("sk-123"));
    assert_eq!(sanitize_optional_env_value(text("a b")), text("a b"));
}

#[test]
fn blank_value_is_absent() {
    assert_eq!(sanitize_optional_env_value(text("")), None);
    assert_eq!(sanitize_optional_env_value(text("   \r\n")), None);
    assert_eq!(sanitize_optional_env_value(None), None);
}

#[test]
fn unicode_white_space_is_trimmed() {
    assert_eq!(sanitize_optional_env_value(text("\u{3000}x\u{a0}\u{2003}")), text("x"));
    assert_eq!(sanitize_optional_env_value(text("\u{85}\u{1680}\u{2028}\u{2029}\u{202f}\u{205f}")), None);
    assert_eq!(sanitize_optional_env_value(text("\u{200b}")), text("\u{200b}"));
    assert_eq!(sanitize_optional_env_value(text("\u{180e}")), text("\u{180e}"));
}

#[test]
fn known_approval_modes_are_kept() {
    for mode in ["default", "auto-edit", "yolo", "plan"] {
        assert_eq!(sanitize_approval_mode(text(mode)), text(mode));
        assert!(is_known_approval_mode(mode));
    }
    assert_eq!(sanitize_approval_mode(text("  yolo ")), text("yolo"));
}

#[test]
fn unknown_approval_mode_is_dropped() {
    assert_eq!(sanitize_approval_mode(text("always")), None);
    assert_eq!(sanitize_approval_mode(text("YOLO")), None);
    assert_eq!(sanitize_approval_mode(text(" ")), None);
    assert_eq!(sanitize_approval_mode(None), None);
    assert!(!is_known_approval_mode("auto_edit"));
}

#[test]
fn headless_config_is_cleaned_field_by_field() {
    let cleaned = sanitize_headless_config(Some(HeadlessConfig {
        working_directory: text(" /work "),
        approval_mode: text("nonsense"),
    }));
    assert_eq!(
        cleaned,
        Some(HeadlessConfig { working_directory: text("/work"), approval_mode: None })
    );
}

#[test]
fn empty_headless_config_is_absent() {
    let cleaned = sanitize_headless_config(Some(HeadlessConfig {
        working_directory: text("  "),
        approval_mode: text("bogus"),
    }));
    assert_eq!(cleaned, None);
    assert_eq!(sanitize_headless_config(None), None);
    assert_eq!(sanitize_headless_config(Some(HeadlessConfig::default())), None);
}

#[test]
fn openai_config_is_cleaned_field_by_field() {
    let cleaned = sanitize_openai_config(Some(OpenAiConfig {
        openai_api_key: text(" key "),
        openai_base_url: text(""),
        openai_model: text("qwen3\n"),
    }))
    .expect("two fields are left");
    assert_eq!(cleaned.openai_api_key, text("key"));
    assert_eq!(cleaned.openai_base_url, None);
    assert_eq!(cleaned.openai_model, text("qwen3"));
    assert!(!cleaned.is_empty());
}

#[test]
fn empty_openai_config_is_absent() {
    let cleaned = sanitize_openai_config(Some(OpenAiConfig {
        openai_api_key: text(" "),
        openai_base_url: None,
        openai_model: text("\t"),
    }));
    assert!(cleaned.is_none());
    assert!(sanitize_openai_config(None).is_none());
}

#[test]
fn is_empty_looks_at_every_field() {
    assert!(OpenAiConfig::default().is_empty());
    assert!(HeadlessConfig::default().is_empty());
    assert!(!OpenAiConfig { openai_model: text("m"), ..OpenAiConfig::default() }.is_empty());
    assert!(!HeadlessConfig { approval_mode: text("plan"), ..HeadlessConfig::default() }.is_empty());
}

#[test]
fn clones_and_comparisons_agree_with_the_fields() {
    let a = HeadlessConfig { working_directory: text("/a"), approval_mode: text("plan") };
    let b = a.clone();
    assert_eq!(a, b);
    assert!(a.same_as(&b));
    let c = HeadlessConfig { working_directory: text("/b"), approval_mode: text("plan") };
    assert!(!a.same_as(&c));
    assert!(same_opt_headless(&None, &None));
    assert!(!same_opt_headless(&Some(a), &None));
    let o = OpenAiConfig { openai_api_key: text("k"), openai_base_url: None, openai_model: None };
    let p = o.clone();
    assert_eq!(p.openai_api_key, text("k"));
    assert_eq!(p.openai_base_url, None);
}

#[test]
fn cleaning_twice_changes_nothing() {
    let raw = Some(HeadlessConfig {
        working_directory: text("  /w\u{a0}"),
        approval_mode: text(" auto-edit\n"),
    });
    let once = sanitize_headless_config(raw);
    assert_eq!(
        once,
        Some(HeadlessConfig { working_directory: text("/w"), approval_mode: text("auto-edit") })
    );
    assert_eq!(sanitize_headless_config(once.clone()), once);
    let key = sanitize_optional_env_value(text("\t k e y \r\n"));
    assert_eq!(key, text("k e y"));
    assert_eq!(sanitize_optional_env_value(key.clone()), key);
    let cleaned = sanitize_openai_config(Some(OpenAiConfig {
        openai_api_key: text(" a "),
        openai_base_url: text(" b "),
        openai_model: text(" c "),
    }));
    let again = sanitize_openai_config(cleaned.clone()).expect("still set");
    let cleaned = cleaned.expect("set");
    assert_eq!(again.openai_api_key, cleaned.openai_api_key);
    assert_eq!(again.openai_base_url, text("b"));
    assert_eq!(again.openai_model, text("c"));
}
