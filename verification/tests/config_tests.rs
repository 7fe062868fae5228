use hotkey_prompt_refiner::config::{
    default_key, default_modifiers, default_template_file, default_timeout, Config, TomlConfig,
    DEFAULT_PROMPT_TEMPLATE,
};

fn config(api_key: &str, prompt_template: &str) -> Config {
    Config {
        api_key: api_key.to_string(),
        prompt_template: prompt_template.to_string(),
        model: None,
        timeout_seconds: default_timeout(),
        hotkey_modifiers: default_modifiers(),
        hotkey_key: default_key(),
    }
}

#[test]
fn test_default_template_has_placeholder() {
    assert!(DEFAULT_PROMPT_TEMPLATE.contains("{clipboard_text}"));
}

#[test]
fn test_config_validate_checks_api_key_format() {
    let config_bad = config("invalid", DEFAULT_PROMPT_TEMPLATE);
    assert!(config_bad.validate().is_err());

    let valid_config = config("sk-test-key", DEFAULT_PROMPT_TEMPLATE);
    assert!(valid_config.validate().is_ok());
}

#[test]
fn test_config_validate_checks_placeholder() {
    let config = config("sk-test", "Invalid template without placeholder");
    assert!(config.validate().is_err());
}

#[test]
fn validate_reports_the_first_fault() {
    assert_eq!(config("", "no placeholder").validate(), Err("API key is empty".to_string()));
    assert_eq!(
        config("key", "no placeholder").validate(),
        Err("API key should start with 'sk-'".to_string())
    );
    assert_eq!(
        config("sk-", "no placeholder").validate(),
        Err("Prompt template must contain {clipboard_text} placeholder".to_string())
    );
    assert_eq!(config("sk-", "{clipboard_text}").validate(), Ok(()));
    assert_eq!(
        config("xsk-", "{clipboard_text}").validate(),
        Err("API key should start with 'sk-'".to_string())
    );
}

#[test]
fn defaults_have_the_documented_values() {
    assert_eq!(default_modifiers(), "cmd+shift");
    assert_eq!(default_key(), "BracketRight");
    assert_eq!(default_timeout(), 30);
    assert_eq!(default_template_file(), "prompt_template.txt");
    let settings = TomlConfig::default();
    assert_eq!(settings.hotkey.modifiers, "cmd+shift");
    assert_eq!(settings.hotkey.key, "BracketRight");
    assert_eq!(settings.api.model, None);
    assert_eq!(settings.api.timeout_seconds, 30);
    assert_eq!(settings.prompt.template_file, "prompt_template.txt");
}

#[test]
fn from_settings_takes_the_default_template_when_none_is_given() {
    let c = Config::from_settings("sk-1".to_string(), TomlConfig::default(), None);
    assert_eq!(c.api_key, "sk-1");
    assert_eq!(c.prompt_template, DEFAULT_PROMPT_TEMPLATE);
    assert_eq!(c.model, None);
    assert_eq!(c.timeout_seconds, 30);
    assert_eq!(c.hotkey_modifiers, "cmd+shift");
    assert_eq!(c.hotkey_key, "BracketRight");
    assert!(c.validate().is_ok());

    let mut settings = TomlConfig::default();
    settings.api.model = Some("m".to_string());
    settings.api.timeout_seconds = 5;
    settings.hotkey.key = "KeyP".to_string();
    let c = Config::from_settings("sk-2".to_string(), settings, Some("T {clipboard_text}".to_string()));
    assert_eq!(c.prompt_template, "T {clipboard_text}");
    assert_eq!(c.model, Some("m".to_string()));
    assert_eq!(c.timeout_seconds, 5);
    assert_eq!(c.hotkey_key, "KeyP");
}
