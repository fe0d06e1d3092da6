use prompter::prompt::{Prompt, Variable};
use prompter::prompt_ops::{
    apply_prompt_update, build_duplicate, build_new_prompt, compose_prompt_id, get_favorite_prompts,
    get_folders, get_prompts_by_folder, get_prompts_by_tag, get_tags, CreatePromptInput,
    UpdatePromptInput, VariableInput,
};

fn base_prompt(id: &str, folder: &str, tags: Vec<&str>, favorite: bool) -> Prompt {
    Prompt {
        id: id.to_string(),
        name: format!("Prompt {}", id),
        description: "d".to_string(),
        content: "c".to_string(),
        folder: folder.to_string(),
        icon: "i".to_string(),
        color: "#000000".to_string(),
        tags: tags.iter().map(|s| s.to_string()).collect(),
        variables: Vec::<Variable>::new(),
        auto_paste: false,
        is_favorite: favorite,
        created_at: "t0".to_string(),
        updated_at: "t0".to_string(),
    }
}

#[test]
fn test_compose_prompt_id() {
    let id = compose_prompt_id("General", "Hello World", "abc12345");
    assert_eq!(id, "General/hello-world-abc12345.md");
}

#[test]
fn test_build_new_prompt_defaults() {
    let input = CreatePromptInput {
        name: "My Prompt".to_string(),
        description: "desc".to_string(),
        content: "body".to_string(),
        folder: None,
        icon: None,
        color: None,
        tags: None,
        variables: None,
        auto_paste: None,
    };
    let p = build_new_prompt(input, "deadbeef", "now".to_string());
    assert_eq!(p.folder, "General");
    assert_eq!(p.id, "General/my-prompt-deadbeef.md");
    assert_eq!(p.icon, "\u{1F4DD}");
    assert_eq!(p.color, "#3B82F6");
    assert!(p.tags.is_empty());
    assert!(p.variables.is_empty());
    assert!(p.auto_paste);
    assert!(!p.is_favorite);
    assert_eq!(p.created_at, "now");
    assert_eq!(p.updated_at, "now");
}

#[test]
fn test_build_new_prompt_explicit_fields() {
    let input = CreatePromptInput {
        name: "N".to_string(),
        description: "D".to_string(),
        content: "C".to_string(),
        folder: Some("Work".to_string()),
        icon: Some("star".to_string()),
        color: Some("#123456".to_string()),
        tags: Some(vec!["one".to_string()]),
        variables: Some(vec![VariableInput {
            name: "v".to_string(),
            default: "x".to_string(),
            required: true,
        }]),
        auto_paste: Some(false),
    };
    let p = build_new_prompt(input, "cafe0123", "t1".to_string());
    assert_eq!(p.folder, "Work");
    assert_eq!(p.id, "Work/n-cafe0123.md");
    assert_eq!(p.icon, "star");
    assert_eq!(p.color, "#123456");
    assert_eq!(p.tags, vec!["one".to_string()]);
    assert_eq!(p.variables.len(), 1);
    assert_eq!(p.variables[0].name, "v");
    assert!(p.variables[0].required);
    assert!(!p.auto_paste);
}

#[test]
fn test_apply_prompt_update() {
    let p = base_prompt("a.md", "General", vec!["x"], false);
    let input = UpdatePromptInput {
        id: "a.md".to_string(),
        name: Some("New name".to_string()),
        description: None,
        content: Some("new content".to_string()),
        folder: None,
        icon: None,
        color: None,
        tags: None,
        variables: None,
        auto_paste: Some(true),
        is_favorite: Some(true),
    };
    let r = apply_prompt_update(p, input, "t1".to_string());
    assert_eq!(r.name, "New name");
    assert_eq!(r.description, "d");
    assert_eq!(r.content, "new content");
    assert_eq!(r.id, "a.md");
    assert!(r.auto_paste);
    assert!(r.is_favorite);
    assert_eq!(r.created_at, "t0");
    assert_eq!(r.updated_at, "t1");
}

#[test]
fn test_build_duplicate() {
    let p = base_prompt("orig.md", "Work", vec!["x"], true);
    let d = build_duplicate(p, None, "0badf00d", "t2".to_string());
    assert_eq!(d.name, "Prompt orig.md (Copy)");
    assert_eq!(d.id, "Work/prompt-orig-md--copy--0badf00d.md");
    assert!(!d.is_favorite);
    assert_eq!(d.created_at, "t2");
    assert_eq!(d.updated_at, "t2");
}

#[test]
fn test_get_prompts_by_folder() {
    let prompts = vec![
        base_prompt("1", "Work", vec![], false),
        base_prompt("2", "Home", vec![], false),
        base_prompt("3", "work", vec![], false),
    ];
    let r = get_prompts_by_folder(prompts, "WORK");
    assert_eq!(r.len(), 2);
    assert_eq!(r[0].id, "1");
    assert_eq!(r[1].id, "3");
}

#[test]
fn test_get_prompts_by_tag() {
    let prompts = vec![
        base_prompt("1", "f", vec!["coding", "review"], false),
        base_prompt("2", "f", vec!["writing"], false),
    ];
    let r = get_prompts_by_tag(prompts, "Coding");
    assert_eq!(r.len(), 1);
    assert_eq!(r[0].id, "1");
}

#[test]
fn test_get_favorite_prompts() {
    let prompts = vec![
        base_prompt("1", "f", vec![], true),
        base_prompt("2", "f", vec![], false),
        base_prompt("3", "f", vec![], true),
    ];
    let r = get_favorite_prompts(prompts);
    assert_eq!(r.len(), 2);
    assert_eq!(r[0].id, "1");
    assert_eq!(r[1].id, "3");
}

#[test]
fn test_get_folders_counts() {
    let prompts = vec![
        base_prompt("1", "Work", vec![], false),
        base_prompt("2", "Home", vec![], false),
        base_prompt("3", "Work", vec![], false),
    ];
    let folders = get_folders(&prompts);
    assert_eq!(folders.len(), 2);
    assert_eq!(folders[0].name, "Work");
    assert_eq!(folders[0].prompt_count, 2);
    assert_eq!(folders[0].id, "Work");
    assert!(folders[0].parent_id.is_none());
    assert_eq!(folders[1].name, "Home");
    assert_eq!(folders[1].prompt_count, 1);
}

#[test]
fn test_get_tags_counts() {
    let prompts = vec![
        base_prompt("1", "f", vec!["a", "b"], false),
        base_prompt("2", "f", vec!["b"], false),
    ];
    let tags = get_tags(&prompts);
    assert_eq!(tags.len(), 2);
    assert_eq!(tags[0].name, "a");
    assert_eq!(tags[0].prompt_count, 1);
    assert_eq!(tags[1].name, "b");
    assert_eq!(tags[1].prompt_count, 2);
}
