use hotkey_prompt_refiner::migration::{
    imported_template, migration_status, parse_env_var, template_path, DetectedEnvFile,
    ImportResult,
};

#[test]
fn test_parse_env_var_simple() {
    let contents = "ANTHROPIC_API_KEY=sk-test-123\n";
    assert_eq!(
        parse_env_var(contents, "ANTHROPIC_API_KEY"),
        Some("sk-test-123".to_string())
    );
}

#[test]
fn test_parse_env_var_with_quotes() {
    let contents = "ANTHROPIC_API_KEY=\"sk-test-123\"";
    assert_eq!(
        parse_env_var(contents, "ANTHROPIC_API_KEY"),
        Some("sk-test-123".to_string())
    );
}

#[test]
fn test_parse_env_var_with_single_quotes() {
    let contents = "ANTHROPIC_API_KEY='sk-test-123'";
    assert_eq!(
        parse_env_var(contents, "ANTHROPIC_API_KEY"),
        Some("sk-test-123".to_string())
    );
}

#[test]
fn test_parse_env_var_with_comments() {
    let contents = "\n# This is a comment\nANTHROPIC_API_KEY=sk-test-123\n# Another comment\nOTHER_VAR=value\n";
    assert_eq!(
        parse_env_var(contents, "ANTHROPIC_API_KEY"),
        Some("sk-test-123".to_string())
    );
}

#[test]
fn test_parse_env_var_not_found() {
    let contents = "OTHER_VAR=value\n";
    assert_eq!(parse_env_var(contents, "ANTHROPIC_API_KEY"), None);
}

#[test]
fn test_parse_env_var_empty_lines() {
    let contents = "\n\nANTHROPIC_API_KEY=sk-test-123\n\n";
    assert_eq!(
        parse_env_var(contents, "ANTHROPIC_API_KEY"),
        Some("sk-test-123".to_string())
    );
}

#[test]
fn parse_env_var_edge_cases() {
    // white space around name and value, carriage returns at line ends
    assert_eq!(parse_env_var("  A  =  b c  \r\nB=2\r\n", "A"), Some("b c".to_string()));
    assert_eq!(parse_env_var("  A  =  b c  \r\nB=2\r\n", "B"), Some("2".to_string()));
    // the first line that gives a value wins
    assert_eq!(parse_env_var("A=1\nA=2", "A"), Some("1".to_string()));
    // only the first '=' separates
    assert_eq!(parse_env_var("A=b=c", "A"), Some("b=c".to_string()));
    // a commented line gives nothing
    assert_eq!(parse_env_var("#A=1\nA=2", "A"), Some("2".to_string()));
    assert_eq!(parse_env_var("  # A=1", "A"), None);
    // an empty value is a value
    assert_eq!(parse_env_var("A=", "A"), Some(String::new()));
    // a line without '=' gives nothing
    assert_eq!(parse_env_var("A", "A"), None);
    // quotes are removed in pairs only
    assert_eq!(parse_env_var("A=\"", "A"), Some("\"".to_string()));
    assert_eq!(parse_env_var("A=\"\"", "A"), Some(String::new()));
    assert_eq!(parse_env_var("A=\"x'", "A"), Some("\"x'".to_string()));
    assert_eq!(parse_env_var("A='x\"", "A"), Some("'x\"".to_string()));
    assert_eq!(parse_env_var("A=\" x \"", "A"), Some(" x ".to_string()));
    assert_eq!(parse_env_var("A=''x''", "A"), Some("'x'".to_string()));
    // names are compared exactly
    assert_eq!(parse_env_var("a=1", "A"), None);
    assert_eq!(parse_env_var("AB=1", "A"), None);
    assert_eq!(parse_env_var("", "A"), None);
}

#[test]
fn import_result_counts_either_part() {
    assert!(!ImportResult::default().anything_imported());
    assert!(ImportResult { api_key_imported: true, template_imported: false }.anything_imported());
    assert!(ImportResult { api_key_imported: false, template_imported: true }.anything_imported());
    assert!(ImportResult { api_key_imported: true, template_imported: true }.anything_imported());
}

#[test]
fn a_file_counts_only_if_it_gives_something() {
    assert!(DetectedEnvFile::from_contents("/a/.env".to_string(), "X=1\n", None).is_none());
    let f = DetectedEnvFile::from_contents("/a/.env".to_string(), "ANTHROPIC_API_KEY=sk-1\n", None)
        .unwrap();
    assert_eq!(f.path, "/a/.env");
    assert_eq!(f.api_key, Some("sk-1".to_string()));
    assert_eq!(f.prompt_template, None);
    let g = DetectedEnvFile::from_contents("/b/.env".to_string(), "X=1\n", Some("T".to_string()))
        .unwrap();
    assert_eq!(g.api_key, None);
    assert_eq!(g.prompt_template, Some("T".to_string()));
    let info = g.info();
    assert_eq!(info.path, "/b/.env");
    assert!(!info.has_api_key);
    assert!(info.has_template);
    assert_eq!(template_path("PROMPT_TEMPLATE=prompt.txt\n"), Some("prompt.txt".to_string()));
    assert_eq!(template_path("X=1\n"), None);
}

#[test]
fn migration_is_needed_when_files_are_found_and_none_was_completed() {
    let files = vec![
        DetectedEnvFile { path: "a".to_string(), api_key: Some("k".to_string()), prompt_template: None },
        DetectedEnvFile { path: "b".to_string(), api_key: None, prompt_template: Some("t".to_string()) },
    ];
    let status = migration_status(false, &files);
    assert!(status.needed);
    assert_eq!(status.env_files.len(), 2);
    assert_eq!(status.env_files[0].path, "a");
    assert!(status.env_files[0].has_api_key);
    assert!(!status.env_files[0].has_template);
    assert_eq!(status.env_files[1].path, "b");
    assert!(!status.env_files[1].has_api_key);
    assert!(status.env_files[1].has_template);

    let done = migration_status(true, &files);
    assert!(!done.needed);
    assert!(done.env_files.is_empty());

    let none = migration_status(false, &Vec::new());
    assert!(!none.needed);
    assert!(none.env_files.is_empty());
}

#[test]
fn an_imported_prompt_becomes_a_template() {
    let t = imported_template("P {clipboard_text}".to_string());
    assert_eq!(t.name, "Imported from CLI");
    assert_eq!(t.description, "Automatically imported from .env configuration");
    assert_eq!(t.prompt, "P {clipboard_text}");
    assert_eq!(t.hotkey, None);
    assert_eq!(t.id.len(), 36);
}
