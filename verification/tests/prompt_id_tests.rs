use prompter::prompt::PromptId;

#[test]
fn test_prompt_id_creation_from_string() {
    let id = PromptId::new("test-id".to_string());
    assert_eq!(id.as_str(), "test-id");
}

#[test]
fn test_prompt_id_creation_from_str() {
    let id = PromptId::from("test-id");
    assert_eq!(id.as_str(), "test-id");
}

#[test]
fn test_prompt_id_from_string() {
    let id: PromptId = "test-id".to_string().into();
    assert_eq!(id.as_str(), "test-id");
}

#[test]
fn test_prompt_id_from_str() {
    let id: PromptId = "test-id".into();
    assert_eq!(id.as_str(), "test-id");
}

#[test]
fn test_prompt_id_equality() {
    let id1 = PromptId::new("test-id".to_string());
    let id2 = PromptId::new("test-id".to_string());
    assert_eq!(id1, id2);
}

#[test]
fn test_prompt_id_display() {
    let id = PromptId::new("test-id".to_string());
    assert_eq!(format!("{}", id.as_str()), "test-id");
}
