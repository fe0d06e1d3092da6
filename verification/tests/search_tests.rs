use prompter::prompt::{Prompt, Variable};
use prompter::search::{all_prompts_as_results, FuzzySearchService};

fn create_test_prompt(id: &str, name: &str, description: &str, tags: Vec<&str>) -> Prompt {
    Prompt {
        id: id.to_string(),
        name: name.to_string(),
        description: description.to_string(),
        content: "Test content".to_string(),
        folder: "test".to_string(),
        icon: "\u{1F4DD}".to_string(),
        color: "#3B82F6".to_string(),
        tags: tags.iter().map(|s| s.to_string()).collect(),
        variables: Vec::<Variable>::new(),
        auto_paste: false,
        is_favorite: false,
        created_at: "2025-01-01T00:00:00Z".to_string(),
        updated_at: "2025-01-01T00:00:00Z".to_string(),
    }
}

#[test]
fn test_search_by_name() {
    let service = FuzzySearchService::new();
    let prompts = vec![
        create_test_prompt("1", "AI Summary", "Get AI news", vec![]),
        create_test_prompt("2", "Email Reply", "Reply to emails", vec![]),
    ];

    let results = service.search("AI", &prompts);
    assert_eq!(results.len(), 1);
    assert_eq!(results[0].prompt.name, "AI Summary");
}

#[test]
fn test_search_by_description() {
    let service = FuzzySearchService::new();
    let prompts = vec![
        create_test_prompt("1", "Test 1", "AI news summary", vec![]),
        create_test_prompt("2", "Test 2", "Email template", vec![]),
    ];

    let results = service.search("email", &prompts);
    assert_eq!(results.len(), 1);
    assert_eq!(results[0].prompt.id, "2");
}

#[test]
fn test_search_by_tags() {
    let service = FuzzySearchService::new();
    let prompts = vec![
        create_test_prompt("1", "Prompt 1", "Desc 1", vec!["coding", "review"]),
        create_test_prompt("2", "Prompt 2", "Desc 2", vec!["writing", "email"]),
    ];

    let results = service.search("coding", &prompts);
    assert_eq!(results.len(), 1);
    assert_eq!(results[0].prompt.id, "1");
}

#[test]
fn test_search_returns_sorted_by_score() {
    let service = FuzzySearchService::new();
    let prompts = vec![
        create_test_prompt("1", "Test", "Description", vec![]),
        create_test_prompt("2", "AI Test Summary", "AI related", vec![]),
        create_test_prompt("3", "AI", "Main AI prompt", vec![]),
    ];

    let results = service.search("AI", &prompts);
    assert!(results.len() >= 2);
    // Higher scores should come first.
    assert!(results[0].score >= results[1].score);
}

#[test]
fn test_search_no_matches() {
    let service = FuzzySearchService::new();
    let prompts = vec![create_test_prompt("1", "Test", "Description", vec![])];

    let results = service.search("nonexistent", &prompts);
    assert_eq!(results.len(), 0);
}

#[test]
fn test_fuzzy_matching() {
    let service = FuzzySearchService::new();
    let prompts = vec![create_test_prompt(
        "1",
        "Email Reply Template",
        "Professional email",
        vec![],
    )];

    // Fuzzy match should work even with typos or partial matches.
    let results = service.search("emil rply", &prompts);
    assert!(results.len() > 0);
}

#[test]
fn test_search_scores_are_positive() {
    let service = FuzzySearchService::new();
    let prompts = vec![
        create_test_prompt("1", "AI Summary", "news", vec!["ai"]),
        create_test_prompt("2", "Notes", "daily notes", vec![]),
    ];
    for hit in service.search("ai", &prompts) {
        assert!(hit.score > 0);
        for m in &hit.matches {
            assert_eq!(m.start, 0);
            assert_eq!(m.end, 2);
        }
    }
}

#[test]
fn test_all_prompts_as_results() {
    let prompts = vec![
        create_test_prompt("1", "One", "", vec![]),
        create_test_prompt("2", "Two", "", vec![]),
    ];
    let results = all_prompts_as_results(prompts);
    assert_eq!(results.len(), 2);
    assert_eq!(results[0].prompt.id, "1");
    assert_eq!(results[0].score, 100);
    assert!(results[0].matches.is_empty());
    assert_eq!(results[1].prompt.id, "2");
}
