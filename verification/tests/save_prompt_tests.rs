use prompter::prompt::{Prompt, PromptId, Variable};
use prompter::repository::{PromptRepository, SavePromptUseCase};

struct MockRepository;

impl PromptRepository for MockRepository {
    fn find_all(&self) -> Result<Vec<Prompt>, String> {
        panic!("not used")
    }

    fn find_by_id(&self, _id: &PromptId) -> Result<Prompt, String> {
        panic!("not used")
    }

    fn save(&self, _prompt: &Prompt) -> Result<(), String> {
        Ok(())
    }

    fn delete(&self, _id: &PromptId) -> Result<(), String> {
        panic!("not used")
    }
}

fn create_valid_prompt() -> Prompt {
    Prompt {
        id: "test-prompt".to_string(),
        name: "Test Prompt".to_string(),
        description: "Test".to_string(),
        content: "Test content".to_string(),
        folder: "test".to_string(),
        icon: "\u{1F4DD}".to_string(),
        color: "#000000".to_string(),
        tags: Vec::new(),
        variables: Vec::<Variable>::new(),
        auto_paste: false,
        is_favorite: false,
        created_at: "2025-01-01T00:00:00Z".to_string(),
        updated_at: "2025-01-01T00:00:00Z".to_string(),
    }
}

#[test]
fn test_save_valid_prompt_succeeds() {
    let repository = MockRepository;
    let use_case = SavePromptUseCase::new(repository);
    let prompt = create_valid_prompt();

    assert!(use_case.execute(&prompt).is_ok());
}

#[test]
fn test_save_invalid_prompt_fails() {
    let repository = MockRepository;
    let use_case = SavePromptUseCase::new(repository);
    let mut prompt = create_valid_prompt();
    prompt.name = "".to_string();

    assert!(use_case.execute(&prompt).is_err());
}
