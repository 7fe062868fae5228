use hotkey_prompt_refiner::anthropic::{
    contains_placeholder, extract_text, format_prompt, is_success, ApiClient, ApiError,
};
use hotkey_prompt_refiner::clipboard::{
    accept_clipboard, check_clipboard_text, classify_read_failure, ClipboardError,
    MAX_CLIPBOARD_SIZE,
};
use hotkey_prompt_refiner::models::{AppConfig, Template};
use hotkey_prompt_refiner::paste::{
    check_permissions, paste_keystrokes, KeyAction, KeyDirection, PasteError, PasteKey,
};

#[test]
fn a_client_keeps_its_key_and_its_model() {
    let client = ApiClient::new("sk-test-key".to_string(), None);
    assert_eq!(client.model, None);
    assert_eq!(client.model_or("fallback-model"), "fallback-model");

    let client_custom = ApiClient::new("sk-test-key".to_string(), Some("custom-model".to_string()));
    assert_eq!(client_custom.model, Some("custom-model".to_string()));
    assert_eq!(client_custom.model_or("fallback-model"), "custom-model");
    assert_eq!(client_custom.api_key, "sk-test-key");
}

#[test]
fn test_format_prompt() {
    let client = ApiClient::new("sk-test-key".to_string(), None);

    let template = "Please improve: {clipboard_text}";
    let clipboard = "Hello world";

    let result = client.format_prompt(template, clipboard).unwrap();
    assert_eq!(result, "Please improve: Hello world");
}

#[test]
fn test_format_prompt_missing_placeholder() {
    let client = ApiClient::new("sk-test-key".to_string(), None);

    let template = "This template has no placeholder";
    let clipboard = "Hello world";

    let result = client.format_prompt(template, clipboard);
    assert!(result.is_err());

    if let Err(ApiError::TemplateError(msg)) = result {
        assert!(msg.contains("placeholder"));
    } else {
        panic!("Expected TemplateError");
    }
}

#[test]
fn test_format_prompt_with_multiple_placeholders() {
    let client = ApiClient::new("sk-test-key".to_string(), None);

    let template = "Input: {clipboard_text}\nProcess: {clipboard_text}";
    let clipboard = "test";

    let result = client.format_prompt(template, clipboard).unwrap();
    assert_eq!(result, "Input: test\nProcess: test");
}

#[test]
fn test_clipboard_trim() {
    let result = check_clipboard_text("   \n\t   ".to_string());
    assert!(matches!(result, Err(ClipboardError::Empty)));
}

#[test]
fn test_max_clipboard_size() {
    let large_text = "x".repeat(MAX_CLIPBOARD_SIZE + 1);
    let result = check_clipboard_text(large_text);
    assert!(matches!(result, Err(ClipboardError::TooLarge(_))));
}

#[test]
fn test_permissions_check() {
    assert!(check_permissions());
}

#[test]
fn prompts_are_formed_like_a_replacement_of_every_placeholder() {
    let cases = [
        ("{clipboard_text}", "x"),
        ("{clipboard_text}{clipboard_text}", "ab"),
        ("a{clipboard_text}b{clipboard_text}c", ""),
        ("{{clipboard_text}}", "{clipboard_text}"),
        ("{clipboard_tex{clipboard_text}", "t}"),
        ("é{clipboard_text}ü", "ß"),
        ("{clipboard_text", "x"),
        ("", "x"),
        ("{CLIPBOARD_TEXT}", "x"),
    ];
    for (template, text) in cases {
        let has = template.contains("{clipboard_text}");
        assert_eq!(contains_placeholder(template), has);
        match format_prompt(template, text) {
            Ok(p) => {
                assert!(has);
                assert_eq!(p, template.replace("{clipboard_text}", text));
            }
            Err(ApiError::TemplateError(m)) => {
                assert!(!has);
                assert_eq!(m, "Template must contain {clipboard_text} placeholder");
            }
            Err(other) => panic!("unexpected error {:?}", other),
        }
    }
}

#[test]
fn replies_are_read() {
    assert!(!is_success(199));
    assert!(is_success(200));
    assert!(is_success(204));
    assert!(is_success(299));
    assert!(!is_success(300));
    assert!(!is_success(404));
    assert_eq!(extract_text(vec!["first".to_string(), "second".to_string()]).unwrap(), "first");
    match extract_text(Vec::new()) {
        Err(ApiError::ParseError(m)) => assert_eq!(m, "No content in API response"),
        other => panic!("expected ParseError, got {:?}", other),
    }
    assert_eq!(ApiError::NetworkError("n".to_string()).message(), "Network error: n");
    assert_eq!(
        ApiError::ApiError { status: 0, message: "m".to_string() }.message(),
        "API error (status 0): m"
    );
    assert_eq!(
        ApiError::ApiError { status: 65535, message: "m".to_string() }.message(),
        "API error (status 65535): m"
    );
    assert_eq!(ApiError::ParseError("p".to_string()).message(), "Failed to parse response: p");
    assert_eq!(ApiError::TemplateError("t".to_string()).message(), "Template error: t");
}

#[test]
fn clipboard_text_is_checked() {
    assert_eq!(MAX_CLIPBOARD_SIZE, 100_000);
    assert!(matches!(check_clipboard_text(String::new()), Err(ClipboardError::Empty)));
    assert!(matches!(check_clipboard_text(" \u{85}\u{2028}".to_string()), Err(ClipboardError::Empty)));
    assert_eq!(check_clipboard_text(" a ".to_string()).unwrap(), " a ");
    assert_eq!(check_clipboard_text("\u{200b}".to_string()).unwrap(), "\u{200b}");
    let at_limit = "y".repeat(100_000);
    assert_eq!(check_clipboard_text(at_limit.clone()).unwrap(), at_limit);
    assert!(matches!(
        check_clipboard_text("y".repeat(100_001)),
        Err(ClipboardError::TooLarge(100_001))
    ));
    // white space is no input however much of it there is
    assert!(matches!(check_clipboard_text(" ".repeat(200_000)), Err(ClipboardError::Empty)));
    assert!(matches!(
        classify_read_failure("clipboard is empty".to_string()),
        ClipboardError::Empty
    ));
    assert!(matches!(
        classify_read_failure("content unavailable".to_string()),
        ClipboardError::Empty
    ));
    assert!(matches!(
        classify_read_failure("Empty".to_string()),
        ClipboardError::AccessError(ref d) if d == "Empty"
    ));
    assert!(matches!(accept_clipboard(Ok("ok".to_string())), Ok(ref t) if t == "ok"));
    assert!(matches!(accept_clipboard(Ok(" ".to_string())), Err(ClipboardError::Empty)));
    assert!(matches!(
        accept_clipboard(Err("broken".to_string())),
        Err(ClipboardError::AccessError(ref d)) if d == "broken"
    ));
    assert_eq!(ClipboardError::Empty.message(), "Clipboard is empty");
    assert_eq!(
        ClipboardError::NonTextContent.message(),
        "Clipboard contains non-text content (images, files, etc.)"
    );
    assert_eq!(
        ClipboardError::AccessError("denied".to_string()).message(),
        "Clipboard access error: denied"
    );
    assert_eq!(
        ClipboardError::TooLarge(123456).message(),
        "Clipboard text too large (123456 bytes, max 100000 bytes)"
    );
    assert_eq!(
        ClipboardError::TooLarge(usize::MAX).message(),
        format!("Clipboard text too large ({} bytes, max 100000 bytes)", usize::MAX)
    );
}

#[test]
fn the_paste_keystroke_is_the_modifier_and_v() {
    assert_eq!(
        paste_keystrokes(true),
        vec![
            KeyAction { key: PasteKey::Meta, direction: KeyDirection::Press },
            KeyAction { key: PasteKey::Unicode('v'), direction: KeyDirection::Click },
            KeyAction { key: PasteKey::Meta, direction: KeyDirection::Release },
        ]
    );
    assert_eq!(
        paste_keystrokes(false),
        vec![
            KeyAction { key: PasteKey::Control, direction: KeyDirection::Press },
            KeyAction { key: PasteKey::Unicode('v'), direction: KeyDirection::Click },
            KeyAction { key: PasteKey::Control, direction: KeyDirection::Release },
        ]
    );
    assert_eq!(
        PasteError::ClipboardError(ClipboardError::Empty).message(),
        "Clipboard error: Clipboard is empty"
    );
    assert_eq!(
        PasteError::SimulationError("s".to_string()).message(),
        "Paste simulation error: s"
    );
    assert_eq!(
        PasteError::PermissionsError.message(),
        "Accessibility permissions required. Please enable in System Settings."
    );
}

fn template(id: &str, name: &str, hotkey: Option<&str>) -> Template {
    let mut t = Template::with_identity(
        id.to_string(),
        "2024-01-01T00:00:00+00:00".to_string(),
        name.to_string(),
        String::new(),
        "{clipboard_text}".to_string(),
    );
    t.hotkey = hotkey.map(|h| h.to_string());
    t
}

fn names(config: &AppConfig) -> Vec<String> {
    let mut out = Vec::new();
    for t in &config.templates {
        out.push(t.name.clone());
    }
    out
}

#[test]
fn templates_are_saved_found_and_deleted_by_identifier() {
    let mut config = AppConfig::default();
    assert!(config.templates.is_empty());
    assert_eq!(config.default_model, None);
    assert!(config.find_template("a").is_none());
    assert_eq!(config.hotkey_count(), 0);

    config.save_template(template("a", "first", None));
    config.save_template(template("b", "second", Some("Cmd+Shift+]")));
    config.save_template(template("c", "third", Some("Cmd+G")));
    assert_eq!(names(&config), vec!["first", "second", "third"]);
    assert_eq!(config.hotkey_count(), 2);
    assert_eq!(config.find_template("b").unwrap().name, "second");
    assert_eq!(config.find_template("b").unwrap().hotkey, Some("Cmd+Shift+]".to_string()));
    assert!(config.find_template("d").is_none());

    // saving under a known identifier replaces in place
    config.save_template(template("b", "second again", None));
    assert_eq!(names(&config), vec!["first", "second again", "third"]);
    assert_eq!(config.hotkey_count(), 1);

    config.delete_template("a");
    assert_eq!(names(&config), vec!["second again", "third"]);
    config.delete_template("zzz");
    assert_eq!(names(&config), vec!["second again", "third"]);
    config.default_model = Some("m".to_string());
    config.delete_template("c");
    config.delete_template("b");
    assert!(config.templates.is_empty());
    assert_eq!(config.default_model, Some("m".to_string()));
}

#[test]
fn new_templates_get_their_own_identifier() {
    let a = Template::new("n".to_string(), "d".to_string(), "p".to_string());
    let b = Template::new("n".to_string(), "d".to_string(), "p".to_string());
    assert_eq!(a.name, "n");
    assert_eq!(a.description, "d");
    assert_eq!(a.prompt, "p");
    assert_eq!(a.hotkey, None);
    assert_eq!(a.id.len(), 36);
    assert_eq!(a.id.chars().count(), 36);
    assert_ne!(a.id, b.id);
    assert!(!a.created_at.is_empty());
    let c = a.clone();
    assert_eq!(c.id, a.id);
    assert_eq!(c.created_at, a.created_at);
    assert_eq!(c.prompt, a.prompt);
}
