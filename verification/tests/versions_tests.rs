use prompter::config::AppConfigInfo;
use prompter::prompt::{Prompt, Variable};
use prompter::versions::{
    apply_version_restore, build_version_entry, sort_versions_desc, usage_stats_for, VersionInfo,
};

fn prompt() -> Prompt {
    Prompt {
        id: "a.md".to_string(),
        name: "Name".to_string(),
        description: "Desc".to_string(),
        content: "Content".to_string(),
        folder: "f".to_string(),
        icon: "i".to_string(),
        color: "#000000".to_string(),
        tags: Vec::new(),
        variables: Vec::<Variable>::new(),
        auto_paste: false,
        is_favorite: true,
        created_at: "t0".to_string(),
        updated_at: "t0".to_string(),
    }
}

fn version(n: i32) -> VersionInfo {
    VersionInfo {
        id: format!("v{}", n),
        prompt_id: "a.md".to_string(),
        version_number: n,
        content: format!("content {}", n),
        name: "old name".to_string(),
        description: "old desc".to_string(),
        change_summary: None,
        created_at: "t".to_string(),
        created_by: None,
    }
}

#[test]
fn test_build_version_entry() {
    let v = build_version_entry(
        &prompt(),
        "id-1".to_string(),
        2,
        Some("Before restore".to_string()),
        "t3".to_string(),
    );
    assert_eq!(v.id, "id-1");
    assert_eq!(v.prompt_id, "a.md");
    assert_eq!(v.version_number, 3);
    assert_eq!(v.content, "Content");
    assert_eq!(v.name, "Name");
    assert_eq!(v.description, "Desc");
    assert_eq!(v.change_summary, Some("Before restore".to_string()));
    assert_eq!(v.created_at, "t3");
    assert!(v.created_by.is_none());
}

#[test]
fn test_apply_version_restore() {
    let restored = apply_version_restore(prompt(), &version(1), "t9".to_string());
    assert_eq!(restored.content, "content 1");
    assert_eq!(restored.name, "old name");
    assert_eq!(restored.description, "old desc");
    assert_eq!(restored.updated_at, "t9");
    assert_eq!(restored.id, "a.md");
    assert_eq!(restored.created_at, "t0");
    assert!(restored.is_favorite);
}

#[test]
fn test_sort_versions_desc() {
    let versions = vec![version(1), version(3), version(2)];
    let sorted = sort_versions_desc(versions);
    assert_eq!(sorted.len(), 3);
    assert_eq!(sorted[0].version_number, 3);
    assert_eq!(sorted[1].version_number, 2);
    assert_eq!(sorted[2].version_number, 1);
}

#[test]
fn test_usage_stats_for() {
    let r = usage_stats_for("p1".to_string(), Some((4, "t8".to_string())));
    assert_eq!(r.prompt_id, "p1");
    assert_eq!(r.use_count, 4);
    assert_eq!(r.last_used, "t8");

    let none = usage_stats_for("p2".to_string(), None);
    assert_eq!(none.use_count, 0);
    assert_eq!(none.last_used, "never");
}

#[test]
fn test_default_config() {
    let c = AppConfigInfo::default();
    assert_eq!(c.hotkey, "F9");
    assert_eq!(c.prompts_dir, "~/.prompter/prompts");
    assert_eq!(c.theme, "dark");
    assert_eq!(c.language, "en");
    assert!(c.auto_paste);
    assert!(c.close_after_paste);
    assert!(!c.remember_last_query);
    assert!(!c.auto_start);
    assert!(c.show_in_tray);
    assert_eq!(c.max_results, 10);
    assert_eq!(c.max_recent_prompts, 5);
    assert!(c.show_keyboard_hints);
    assert_eq!(c.editor_font_size, 14);
    assert!(c.editor_word_wrap);
    assert!(c.backup_enabled);
    assert_eq!(c.backup_interval_hours, 24);
    assert!(c.analytics_enabled);
}
