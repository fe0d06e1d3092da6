//! Prompt persistence: the repository port, the save use case, and the
//! pure parts of the file store — path composition and the markdown
//! document format with its frontmatter framing.
//!
//! A stored prompt file is YAML frontmatter between two `---` delimiters,
//! followed by the prompt's content.  The framing below is verified; the
//! YAML payload itself is exchanged with the outside as plain text.

use vstd::prelude::*;

use crate::prompt::{Prompt, PromptId};
use crate::text::{
    chars_of, find_pattern_from, matches_at, spec_trim, string_from_chars, trim_chars,
};
use vstd::string::StringExecFns;

verus! {

/// Repository interface for prompt storage.
///
/// Implementations live outside the library (a file-backed store) and in
/// tests (in-memory fakes); the use cases above them are verified for
/// every answer an implementation can give.
pub trait PromptRepository {
    /// Find all prompts.
    fn find_all(&self) -> Result<Vec<Prompt>, String>;

    /// Find a specific prompt by identifier.
    fn find_by_id(&self, id: &PromptId) -> Result<Prompt, String>;

    /// Save a prompt, creating or updating it.
    fn save(&self, prompt: &Prompt) -> Result<(), String>;

    /// Delete a prompt by identifier.
    fn delete(&self, id: &PromptId) -> Result<(), String>;
}

/// The save use case: validate, then persist.
pub struct SavePromptUseCase<R> {
    repository: R,
}

impl<R: PromptRepository> SavePromptUseCase<R> {
    pub fn new(repository: R) -> (r: SavePromptUseCase<R>) {
        SavePromptUseCase { repository }
    }

    /// Persist a prompt after checking the business rules.
    ///
    /// An invalid prompt is rejected with the validation error and never
    /// reaches the repository; a valid one is handed to the repository,
    /// whose answer is passed through.
    pub fn execute(&self, prompt: &Prompt) -> (r: Result<(), String>)
        ensures
            crate::text::spec_is_blank(prompt.name@) ==> (r matches Err(e) && e@
                == "Prompt name cannot be empty"@),
            !crate::text::spec_is_blank(prompt.name@) && crate::text::spec_is_blank(
                prompt.content@,
            ) ==> (r matches Err(e) && e@ == "Prompt content cannot be empty"@),
    {
        match prompt.validate() {
            Err(e) => Err(e),
            Ok(()) => self.repository.save(prompt),
        }
    }
}

/// Whether a file name ends in the markdown extension with a nonempty stem.
pub open spec fn spec_is_markdown_name(name: Seq<char>) -> bool {
    name.len() > 3 && name.subrange(name.len() - 3, name.len() as int) == ".md"@
}

/// Decide whether a file name is a stored prompt's.
pub fn is_markdown_name(name: &str) -> (b: bool)
    ensures
        b == spec_is_markdown_name(name@),
{
    let n = name.unicode_len();
    if n <= 3 {
        return false;
    }
    proof {
        reveal_strlit(".md");
    }
    let dot = name.get_char(n - 3);
    let m = name.get_char(n - 2);
    let d = name.get_char(n - 1);
    let matched = dot == '.' && m == 'm' && d == 'd';
    proof {
        if matched {
            assert(name@.subrange(n - 3, n as int) =~= ".md"@);
        } else {
            assert(name@.subrange(n - 3, n as int)[0] == name@[n - 3]);
            assert(name@.subrange(n - 3, n as int)[1] == name@[n - 2]);
            assert(name@.subrange(n - 3, n as int)[2] == name@[n - 1]);
        }
    }
    matched
}

/// The file-backed prompt store's pure half: it knows the store's
/// directory and the document format; reading and writing the files
/// themselves happens outside the library.
pub struct FilePromptRepository {
    prompts_dir: String,
    parser: YamlParser,
}

impl FilePromptRepository {
    /// The directory the store keeps its prompt files in.
    pub closed spec fn dir(&self) -> Seq<char> {
        self.prompts_dir@
    }

    /// A store over the given directory.
    pub fn with_directory(prompts_dir: String) -> (r: FilePromptRepository)
        ensures
            r.dir() == prompts_dir@,
    {
        FilePromptRepository { prompts_dir, parser: YamlParser::new() }
    }

    /// The path of the file an identifier names: the store's directory,
    /// a separator, and the identifier.
    pub fn get_prompt_path(&self, id: &PromptId) -> (r: String)
        ensures
            r@ == self.dir() + "/"@ + id@,
    {
        self.prompts_dir.clone().concat("/").concat(id.as_str())
    }
}

/// The first position at or after `from` where `pat` occurs in `s`.
pub open spec fn spec_find(s: Seq<char>, pat: Seq<char>, from: int) -> Option<int>
    decreases s.len() - from,
{
    if from < 0 || from + pat.len() > s.len() {
        None
    } else if pat.len() == 0 || matches_at(s, pat, from) {
        Some(from)
    } else {
        spec_find(s, pat, from + 1)
    }
}

proof fn lemma_find_some(s: Seq<char>, pat: Seq<char>, from: int, i: int)
    requires
        pat.len() > 0,
        0 <= from <= i,
        matches_at(s, pat, i),
        forall|j: int| from <= j < i ==> !matches_at(s, pat, j),
    ensures
        spec_find(s, pat, from) == Some(i),
    decreases i - from,
{
    if from == i {
    } else {
        lemma_find_some(s, pat, from + 1, i);
    }
}

proof fn lemma_find_none(s: Seq<char>, pat: Seq<char>, from: int)
    requires
        pat.len() > 0,
        0 <= from,
        forall|j: int| from <= j ==> !matches_at(s, pat, j),
    ensures
        spec_find(s, pat, from) is None,
    decreases s.len() - from,
{
    if from + pat.len() > s.len() {
    } else {
        assert(!matches_at(s, pat, from));
        lemma_find_none(s, pat, from + 1);
    }
}

/// The frontmatter delimiter.
pub open spec fn spec_delim() -> Seq<char> {
    "---"@
}

/// Where a document's two frontmatter delimiters stand: the first
/// occurrence anywhere, and the next occurrence after it.
pub open spec fn spec_doc_delims(s: Seq<char>) -> Option<(int, int)> {
    match spec_find(s, spec_delim(), 0) {
        None => None,
        Some(f1) => match spec_find(s, spec_delim(), f1 + 3) {
            None => None,
            Some(f2) => Some((f1, f2)),
        },
    }
}

/// The trimmed frontmatter of a well-delimited document.
pub open spec fn spec_doc_frontmatter(s: Seq<char>, f1: int, f2: int) -> Seq<char> {
    spec_trim(s.subrange(f1 + 3, f2))
}

/// The trimmed body of a well-delimited document.
pub open spec fn spec_doc_body(s: Seq<char>, f2: int) -> Seq<char> {
    spec_trim(s.subrange(f2 + 3, s.len() as int))
}

/// The markdown-with-frontmatter document format.
pub struct YamlParser;

impl YamlParser {
    pub fn new() -> (r: YamlParser) {
        YamlParser
    }

    /// Split a stored document into its trimmed frontmatter and body.
    ///
    /// The document must hold two `---` delimiters; the frontmatter is the
    /// trimmed text between them and must be nonempty, the body is the
    /// trimmed text after the second delimiter.  Text before the first
    /// delimiter is ignored.  Exactly the documents without two delimiters,
    /// or with nothing but whitespace between them, are rejected, each
    /// with its own error.
    pub fn split_document(&self, content: &str) -> (r: Result<(String, String), String>)
        ensures
            match r {
                Ok(parts) => spec_doc_delims(content@) matches Some(d)
                    && spec_doc_frontmatter(content@, d.0, d.1).len() > 0 && parts.0@
                    == spec_doc_frontmatter(content@, d.0, d.1) && parts.1@ == spec_doc_body(
                    content@,
                    d.1,
                ),
                Err(e) => match spec_doc_delims(content@) {
                    None => e@ == "Invalid file format: missing frontmatter delimiters"@,
                    Some(d) => spec_doc_frontmatter(content@, d.0, d.1).len() == 0 && e@
                        == "Invalid file format: empty frontmatter"@,
                },
            },
    {
        proof {
            reveal_strlit("---");
        }
        let n = content.unicode_len();
        let first = find_pattern_from(content, "---", 0);
        let f1 = match first {
            Some(f1) => f1,
            None => {
                proof {
                    lemma_find_none(content@, spec_delim(), 0);
                }
                return Err(String::from_str("Invalid file format: missing frontmatter delimiters"));
            },
        };
        proof {
            lemma_find_some(content@, spec_delim(), 0, f1 as int);
        }
        let second = find_pattern_from(content, "---", f1 + 3);
        let f2 = match second {
            Some(f2) => f2,
            None => {
                proof {
                    lemma_find_none(content@, spec_delim(), f1 as int + 3);
                }
                return Err(String::from_str("Invalid file format: missing frontmatter delimiters"));
            },
        };
        proof {
            lemma_find_some(content@, spec_delim(), f1 as int + 3, f2 as int);
        }
        let raw_frontmatter = content.substring_char(f1 + 3, f2);
        let frontmatter_chars = trim_chars(&chars_of(raw_frontmatter));
        if frontmatter_chars.len() == 0 {
            return Err(String::from_str("Invalid file format: empty frontmatter"));
        }
        let raw_body = content.substring_char(f2 + 3, n);
        let body_chars = trim_chars(&chars_of(raw_body));
        Ok((string_from_chars(&frontmatter_chars), string_from_chars(&body_chars)))
    }

    /// Assemble a stored document: an opening delimiter line, the
    /// frontmatter text, a closing delimiter line, a blank line, and the
    /// content.
    pub fn compose_document(&self, frontmatter: &str, content: &str) -> (r: String)
        ensures
            r@ == "---\n"@ + frontmatter@ + "---\n\n"@ + content@,
    {
        String::from_str("---\n").concat(frontmatter).concat("---\n\n").concat(content)
    }
}

} // verus!
