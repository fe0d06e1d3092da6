use prompter::prompt::{Prompt, Variable};

fn create_valid_prompt() -> Prompt {
    Prompt {
        id: "test-folder/test-prompt.md".to_string(),
        name: "Test Prompt".to_string(),
        description: "Test description".to_string(),
        content: "Test content".to_string(),
        folder: "test-folder".to_string(),
        icon: "\u{1F4DD}".to_string(),
        color: "#3B82F6".to_string(),
        tags: vec!["test".to_string()],
        variables: Vec::<Variable>::new(),
        auto_paste: false,
        is_favorite: false,
        created_at: "2025-01-01T00:00:00Z".to_string(),
        updated_at: "2025-01-01T00:00:00Z".to_string(),
    }
}

#[test]
fn test_valid_prompt_passes_validation() {
    let prompt = create_valid_prompt();
    assert!(prompt.validate().is_ok());
}

#[test]
fn test_empty_name_fails_validation() {
    let mut prompt = create_valid_prompt();
    prompt.name = "".to_string();
    assert!(prompt.validate().is_err());
    assert_eq!(prompt.validate().unwrap_err(), "Prompt name cannot be empty");
}

#[test]
fn test_whitespace_name_fails_validation() {
    let mut prompt = create_valid_prompt();
    prompt.name = "   ".to_string();
    assert!(prompt.validate().is_err());
}

#[test]
fn test_empty_content_fails_validation() {
    let mut prompt = create_valid_prompt();
    prompt.content = "".to_string();
    assert!(prompt.validate().is_err());
    assert_eq!(prompt.validate().unwrap_err(), "Prompt content cannot be empty");
}

#[test]
fn test_extract_folder_from_path() {
    let prompt = create_valid_prompt();
    let folder = prompt.extract_folder();
    assert_eq!(folder, Some("test-folder".to_string()));
}

#[test]
fn test_extract_folder_from_root_path() {
    let mut prompt = create_valid_prompt();
    prompt.id = "test-prompt.md".to_string();
    let folder = prompt.extract_folder();
    assert_eq!(folder, None);
}

#[test]
fn test_extract_folder_nested_path() {
    let mut prompt = create_valid_prompt();
    prompt.id = "a/b/c.md".to_string();
    assert_eq!(prompt.extract_folder(), Some("b".to_string()));
}

#[test]
fn test_extract_folder_repeated_separator() {
    // Empty components are ignored, as a path reading does.
    let mut prompt = create_valid_prompt();
    prompt.id = "a//b.md".to_string();
    assert_eq!(prompt.extract_folder(), Some("a".to_string()));
}

#[test]
fn test_extract_folder_trailing_separator() {
    // A lone component with a trailing separator has no parent.
    let mut prompt = create_valid_prompt();
    prompt.id = "folder/".to_string();
    assert_eq!(prompt.extract_folder(), None);
}

#[test]
fn test_default_icon_and_color() {
    assert_eq!(prompter::prompt::default_icon(), "file-text");
    assert_eq!(prompter::prompt::default_color(), "#6B7280");
}
