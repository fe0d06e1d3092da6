//! The prompt entity, its validation rules, and its typed identifier.

use vstd::prelude::*;

use crate::text::{is_blank, spec_is_blank, string_from_chars};
use vstd::string::StringExecFns;

verus! {

/// A named variable a prompt's content can reference.
#[derive(Debug, PartialEq)]
pub struct Variable {
    pub name: String,
    pub default: String,
    pub required: bool,
}

impl Clone for Variable {
    fn clone(&self) -> (res: Self)
        ensures
            res == *self,
    {
        Variable {
            name: self.name.clone(),
            default: self.default.clone(),
            required: self.required,
        }
    }
}

/// A stored prompt: a short piece of text with its metadata.
#[derive(Debug, PartialEq)]
pub struct Prompt {
    pub id: String,
    pub name: String,
    pub description: String,
    pub content: String,
    pub folder: String,
    pub icon: String,
    pub color: String,
    pub tags: Vec<String>,
    pub variables: Vec<Variable>,
    pub auto_paste: bool,
    pub is_favorite: bool,
    pub created_at: String,
    pub updated_at: String,
}

/// Equality of two prompts up to container identity: every scalar and
/// string field equal, and the tag and variable lists equal element-wise.
pub open spec fn prompt_like(a: Prompt, b: Prompt) -> bool {
    &&& a.id == b.id
    &&& a.name == b.name
    &&& a.description == b.description
    &&& a.content == b.content
    &&& a.folder == b.folder
    &&& a.icon == b.icon
    &&& a.color == b.color
    &&& a.tags@ == b.tags@
    &&& a.variables@ == b.variables@
    &&& a.auto_paste == b.auto_paste
    &&& a.is_favorite == b.is_favorite
    &&& a.created_at == b.created_at
    &&& a.updated_at == b.updated_at
}

impl Clone for Prompt {
    fn clone(&self) -> (res: Self)
        ensures
            prompt_like(res, *self),
    {
        let res = Prompt {
            id: self.id.clone(),
            name: self.name.clone(),
            description: self.description.clone(),
            content: self.content.clone(),
            folder: self.folder.clone(),
            icon: self.icon.clone(),
            color: self.color.clone(),
            tags: self.tags.clone(),
            variables: self.variables.clone(),
            auto_paste: self.auto_paste,
            is_favorite: self.is_favorite,
            created_at: self.created_at.clone(),
            updated_at: self.updated_at.clone(),
        };
        proof {
            assert(res.tags@ =~= self.tags@);
            assert(res.variables@ =~= self.variables@);
        }
        res
    }
}

/// A prompt is valid when neither its name nor its content is blank.
pub open spec fn spec_prompt_valid(p: Prompt) -> bool {
    !spec_is_blank(p.name@) && !spec_is_blank(p.content@)
}

/// The default icon of a prompt whose stored record names none.
pub fn default_icon() -> (r: String)
    ensures
        r@ == "file-text"@,
{
    String::from_str("file-text")
}

/// The default color of a prompt whose stored record names none.
pub fn default_color() -> (r: String)
    ensures
        r@ == "#6B7280"@,
{
    String::from_str("#6B7280")
}

impl Prompt {
    /// Check the business rules: the name must not be blank, and neither
    /// may the content.  The name is checked first.
    pub fn validate(&self) -> (r: Result<(), String>)
        ensures
            r is Ok <==> spec_prompt_valid(*self),
            spec_is_blank(self.name@) ==> (r matches Err(e) && e@
                == "Prompt name cannot be empty"@),
            !spec_is_blank(self.name@) && spec_is_blank(self.content@) ==> (r matches Err(e) && e@
                == "Prompt content cannot be empty"@),
    {
        if is_blank(self.name.as_str()) {
            return Err(String::from_str("Prompt name cannot be empty"));
        }
        if is_blank(self.content.as_str()) {
            return Err(String::from_str("Prompt content cannot be empty"));
        }
        Ok(())
    }

    /// The folder a prompt's identifier places it in: the name of the
    /// identifier's parent directory, when the identifier has one.
    ///
    /// The identifier is read as a `/`-separated path, the way the
    /// library composes identifiers: empty components from leading,
    /// repeated or trailing separators are ignored, the last nonempty
    /// component is the file's name, and the folder is the component
    /// before it.  Dot components get no special treatment, and `/` is
    /// the only separator recognized.
    pub fn extract_folder(&self) -> (r: Option<String>)
        ensures
            match r {
                Some(f) => spec_has_parent(self.id@) && f@ == spec_folder_of_id(self.id@),
                None => !spec_has_parent(self.id@),
            },
    {
        let ghost whole = self.id@;
        let n = self.id.as_str().unicode_len();
        let mut comps: Vec<String> = Vec::new();
        let mut cur: Vec<char> = Vec::new();
        let mut i: usize = 0;
        proof {
            assert(whole.skip(0) =~= whole);
            assert(comps@.map_values(|x: String| x@) =~= Seq::<Seq<char>>::empty());
            assert(Seq::<Seq<char>>::empty() + spec_components_from(whole, cur@)
                =~= spec_components_from(whole, cur@));
        }
        while i < n
            invariant
                0 <= i <= n,
                n == whole.len(),
                whole == self.id@,
                spec_components(whole) == comps@.map_values(|x: String| x@)
                    + spec_components_from(whole.skip(i as int), cur@),
            decreases n - i,
        {
            let ghost comps0 = comps@;
            let ghost cur0 = cur@;
            let ghost rest = whole.skip(i as int);
            let c = self.id.as_str().get_char(i);
            proof {
                assert(rest[0] == whole[i as int]);
                assert(rest.skip(1) =~= whole.skip(i as int + 1));
            }
            if c == '/' {
                if cur.len() > 0 {
                    comps.push(string_from_chars(&cur));
                    cur = Vec::new();
                }
                proof {
                    if cur0.len() == 0 {
                        assert(cur0 =~= Seq::<char>::empty());
                    }
                    assert(spec_components_from(rest, cur0) == (if cur0.len() == 0 {
                        spec_components_from(whole.skip(i as int + 1), Seq::<char>::empty())
                    } else {
                        seq![cur0] + spec_components_from(
                            whole.skip(i as int + 1),
                            Seq::<char>::empty(),
                        )
                    }));
                    if cur0.len() > 0 {
                        assert(comps@.map_values(|x: String| x@) =~= comps0.map_values(
                            |x: String| x@,
                        ).push(cur0));
                        assert(comps0.map_values(|x: String| x@) + (seq![cur0]
                            + spec_components_from(
                            whole.skip(i as int + 1),
                            Seq::<char>::empty(),
                        )) =~= comps@.map_values(|x: String| x@) + spec_components_from(
                            whole.skip(i as int + 1),
                            Seq::<char>::empty(),
                        ));
                    }
                }
            } else {
                cur.push(c);
                proof {
                    assert(cur@ =~= cur0.push(whole[i as int]));
                    assert(spec_components_from(rest, cur0) == spec_components_from(
                        whole.skip(i as int + 1),
                        cur0.push(whole[i as int]),
                    ));
                }
            }
            i = i + 1;
        }
        if cur.len() > 0 {
            let ghost comps0 = comps@;
            let ghost cur0 = cur@;
            comps.push(string_from_chars(&cur));
            proof {
                assert(whole.skip(n as int) =~= Seq::<char>::empty());
                assert(spec_components_from(Seq::<char>::empty(), cur0) =~= seq![cur0]);
                assert(comps@.map_values(|x: String| x@) =~= comps0.map_values(|x: String| x@)
                    .push(cur0));
                assert(comps0.map_values(|x: String| x@) + seq![cur0] =~= comps@.map_values(
                    |x: String| x@,
                ));
            }
        } else {
            proof {
                assert(whole.skip(n as int) =~= Seq::<char>::empty());
                assert(spec_components_from(Seq::<char>::empty(), cur@)
                    =~= Seq::<Seq<char>>::empty());
                assert(comps@.map_values(|x: String| x@) + Seq::<Seq<char>>::empty()
                    =~= comps@.map_values(|x: String| x@));
            }
        }
        if comps.len() >= 2 {
            let f = comps[comps.len() - 2].clone();
            proof {
                assert(f@ == comps@.map_values(|x: String| x@)[comps@.len() - 2]);
            }
            Some(f)
        } else {
            None
        }
    }
}

/// The nonempty `/`-separated components of `s`, with `cur` the partial
/// component read so far.
pub open spec fn spec_components_from(s: Seq<char>, cur: Seq<char>) -> Seq<Seq<char>>
    decreases s.len(),
{
    if s.len() == 0 {
        if cur.len() == 0 {
            Seq::empty()
        } else {
            seq![cur]
        }
    } else if s[0] == '/' {
        let rest = spec_components_from(s.skip(1), Seq::empty());
        if cur.len() == 0 {
            rest
        } else {
            seq![cur] + rest
        }
    } else {
        spec_components_from(s.skip(1), cur.push(s[0]))
    }
}

/// The nonempty `/`-separated components of an identifier, in order;
/// empty components from leading, repeated or trailing separators are
/// dropped.
pub open spec fn spec_components(s: Seq<char>) -> Seq<Seq<char>> {
    spec_components_from(s, Seq::empty())
}

/// Whether an identifier names a parent directory: at least two nonempty
/// components.
pub open spec fn spec_has_parent(s: Seq<char>) -> bool {
    spec_components(s).len() >= 2
}

/// The folder component of an identifier: the nonempty component before
/// the last one.
pub open spec fn spec_folder_of_id(s: Seq<char>) -> Seq<char> {
    if spec_has_parent(s) {
        spec_components(s)[spec_components(s).len() - 2]
    } else {
        Seq::empty()
    }
}

/// A type-safe prompt identifier.
#[derive(Debug, PartialEq, Eq, Hash)]
pub struct PromptId(String);

impl View for PromptId {
    type V = Seq<char>;

    closed spec fn view(&self) -> Seq<char> {
        self.0@
    }
}

impl Clone for PromptId {
    fn clone(&self) -> (res: Self)
        ensures
            res@ == self@,
    {
        PromptId(self.0.clone())
    }
}

impl PromptId {
    /// Wrap an identifier string.
    pub fn new(id: String) -> (r: PromptId)
        ensures
            r@ == id@,
    {
        PromptId(id)
    }

    /// The identifier as a string slice.
    pub fn as_str(&self) -> (r: &str)
        ensures
            r@ == self@,
    {
        self.0.as_str()
    }
}

impl From<String> for PromptId {
    fn from(s: String) -> (r: PromptId) {
        PromptId(s)
    }
}

impl vstd::std_specs::convert::FromSpecImpl<String> for PromptId {
    open spec fn obeys_from_spec() -> bool {
        true
    }

    closed spec fn from_spec(s: String) -> PromptId {
        PromptId(s)
    }
}

impl<'a> From<&'a str> for PromptId {
    fn from(s: &'a str) -> (r: PromptId) {
        PromptId::new(s.to_owned())
    }
}

impl<'a> vstd::std_specs::convert::FromSpecImpl<&'a str> for PromptId {
    /// No spec-level `String` can be named for a borrowed source, so
    /// nothing is promised of this conversion.
    open spec fn obeys_from_spec() -> bool {
        false
    }

    open spec fn from_spec(s: &'a str) -> PromptId {
        arbitrary()
    }
}

} // verus!
