use prompter::prompt::PromptId;
use prompter::repository::{FilePromptRepository, YamlParser};
use prompter::text::{eq_ignore_ascii_case, is_blank, sanitize_filename};

#[test]
fn test_is_blank() {
    assert!(is_blank(""));
    assert!(is_blank("   \t\r\n"));
    // Unicode whitespace counts too, as str::trim sees it.
    assert!(is_blank("\u{00A0}\u{2003}"));
    assert!(!is_blank("  a  "));
}

#[test]
fn test_eq_ignore_ascii_case() {
    assert!(eq_ignore_ascii_case("General", "general"));
    assert!(eq_ignore_ascii_case("ABC-1", "abc-1"));
    assert!(!eq_ignore_ascii_case("abc", "abd"));
    assert!(!eq_ignore_ascii_case("abc", "abcd"));
}

#[test]
fn test_sanitize_filename_basic() {
    assert_eq!(sanitize_filename("Hello World"), "hello-world");
}

#[test]
fn test_sanitize_filename_specials() {
    assert_eq!(sanitize_filename("My *Great* Prompt!"), "my--great--prompt-");
}

#[test]
fn test_sanitize_filename_unicode() {
    // Unicode alphanumerics are kept and lowercased, not dashed out.
    assert_eq!(sanitize_filename("\u{00C9}clair Recipe"), "\u{00E9}clair-recipe");
}

#[test]
fn test_sanitize_filename_spaces() {
    // A double space collapses to one before spaces become dashes, and
    // outer whitespace is trimmed.
    assert_eq!(sanitize_filename("  a  b  "), "a-b");
    assert_eq!(sanitize_filename("a   b"), "a--b");
}

#[test]
fn test_split_document_valid() {
    let parser = YamlParser::new();
    let doc = "---\nname: \"Test\"\ndescription: \"d\"\n---\nThis is the content";
    let (frontmatter, body) = parser.split_document(doc).unwrap();
    assert_eq!(frontmatter, "name: \"Test\"\ndescription: \"d\"");
    assert_eq!(body, "This is the content");
}

#[test]
fn test_split_document_missing_delimiters() {
    let parser = YamlParser::new();
    let result = parser.split_document("No frontmatter here\n");
    assert!(result.is_err());
    assert!(result.unwrap_err().contains("missing frontmatter"));
}

#[test]
fn test_split_document_empty_frontmatter() {
    let parser = YamlParser::new();
    let result = parser.split_document("---\n---\nContent\n");
    assert!(result.is_err());
    assert!(result.unwrap_err().contains("empty frontmatter"));
}

#[test]
fn test_split_document_extra_delimiters_stay_in_body() {
    let parser = YamlParser::new();
    let doc = "---\nname: x\n---\nbody --- more";
    let (_frontmatter, body) = parser.split_document(doc).unwrap();
    assert_eq!(body, "body --- more");
}

#[test]
fn test_compose_document() {
    let parser = YamlParser::new();
    let composed = parser.compose_document("name: Test\n", "Test content");
    assert_eq!(composed, "---\nname: Test\n---\n\nTest content");
    assert!(composed.contains("---"));
    assert!(composed.contains("name: Test"));
    assert!(composed.contains("Test content"));
}

#[test]
fn test_get_prompt_path() {
    let repo = FilePromptRepository::with_directory("/home/u/.prompter/prompts".to_string());
    let path = repo.get_prompt_path(&PromptId::new("General/note-1234.md".to_string()));
    assert_eq!(path, "/home/u/.prompter/prompts/General/note-1234.md");
}

#[test]
fn test_is_markdown_name() {
    assert!(prompter::repository::is_markdown_name("note.md"));
    assert!(!prompter::repository::is_markdown_name(".md"));
    assert!(!prompter::repository::is_markdown_name("note.txt"));
}
