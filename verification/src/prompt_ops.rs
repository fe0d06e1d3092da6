//! Pure construction and update of prompts, and selection over prompt
//! lists.
//!
//! These are the computing halves of the storage commands: identifier
//! generation, field-by-field application of a partial update, duplication,
//! and the folder, tag and favorite selections.  Fresh identifiers need a
//! random suffix and timestamps need a clock, so both are handed in as
//! plain strings.

use vstd::prelude::*;

use crate::prompt::{Prompt, Variable};
use crate::text::{
    eq_ignore_ascii_case, sanitize_filename, spec_eq_ignore_ascii_case, spec_sanitize_filename,
};
use vstd::string::StringExecFns;

verus! {

/// Input for creating a new prompt.
#[derive(Debug)]
pub struct CreatePromptInput {
    pub name: String,
    pub description: String,
    pub content: String,
    pub folder: Option<String>,
    pub icon: Option<String>,
    pub color: Option<String>,
    pub tags: Option<Vec<String>>,
    pub variables: Option<Vec<VariableInput>>,
    pub auto_paste: Option<bool>,
}

/// Input for updating an existing prompt; absent fields stay untouched.
#[derive(Debug)]
pub struct UpdatePromptInput {
    pub id: String,
    pub name: Option<String>,
    pub description: Option<String>,
    pub content: Option<String>,
    pub folder: Option<String>,
    pub icon: Option<String>,
    pub color: Option<String>,
    pub tags: Option<Vec<String>>,
    pub variables: Option<Vec<VariableInput>>,
    pub auto_paste: Option<bool>,
    pub is_favorite: Option<bool>,
}

/// A variable as the user interface supplies it.
#[derive(Debug)]
pub struct VariableInput {
    pub name: String,
    pub default: String,
    pub required: bool,
}

/// The entity variable corresponding to an input variable.
pub open spec fn variable_of_input(v: VariableInput) -> Variable {
    Variable { name: v.name, default: v.default, required: v.required }
}

/// Convert supplied variables into entity variables, in order.
pub fn variables_from_inputs(inputs: Vec<VariableInput>) -> (r: Vec<Variable>)
    ensures
        r@ == inputs@.map_values(|v: VariableInput| variable_of_input(v)),
{
    let n = inputs.len();
    let mut rest = inputs;
    let mut r: Vec<Variable> = Vec::new();
    let ghost all = rest@;
    let mut i: usize = 0;
    while i < n
        invariant
            0 <= i <= n,
            n == all.len(),
            rest@ == all.skip(i as int),
            r@ == all.take(i as int).map_values(|v: VariableInput| variable_of_input(v)),
        decreases n - i,
    {
        let v = rest.remove(0);
        proof {
            assert(all.skip(i as int).skip(1) =~= all.skip(i as int + 1));
            assert(v == all[i as int]);
        }
        r.push(Variable { name: v.name, default: v.default, required: v.required });
        proof {
            assert(r@ =~= all.take(i as int + 1).map_values(
                |v: VariableInput| variable_of_input(v),
            ));
        }
        i = i + 1;
    }
    proof {
        assert(all.take(i as int) =~= all);
    }
    r
}

/// The identifier a stored prompt file gets: the folder, a separator, the
/// sanitized name, a dash, the random suffix, and the markdown extension.
pub open spec fn spec_prompt_file_id(
    folder: Seq<char>,
    name: Seq<char>,
    suffix: Seq<char>,
) -> Seq<char> {
    folder + "/"@ + spec_sanitize_filename(name) + "-"@ + suffix + ".md"@
}

/// Compose a prompt's file identifier.
pub fn compose_prompt_id(folder: &str, name: &str, uuid_suffix: &str) -> (r: String)
    ensures
        r@ == spec_prompt_file_id(folder@, name@, uuid_suffix@),
{
    let sanitized = sanitize_filename(name);
    folder.to_owned().concat("/").concat(sanitized.as_str()).concat("-").concat(
        uuid_suffix,
    ).concat(".md")
}

/// Build the prompt a create request describes.
///
/// Absent fields get their documented defaults; the identifier is composed
/// from the resolved folder, the sanitized name and the random suffix; the
/// new prompt is never born a favorite; both timestamps are the supplied
/// creation instant.
pub fn build_new_prompt(input: CreatePromptInput, uuid_suffix: &str, now: String) -> (r: Prompt)
    ensures
        r.name == input.name,
        r.description == input.description,
        r.content == input.content,
        r.folder@ == (match input.folder {
            Some(f) => f@,
            None => "General"@,
        }),
        r.id@ == spec_prompt_file_id(r.folder@, input.name@, uuid_suffix@),
        r.icon@ == (match input.icon {
            Some(s) => s@,
            None => "\u{1F4DD}"@,
        }),
        r.color@ == (match input.color {
            Some(s) => s@,
            None => "#3B82F6"@,
        }),
        r.tags@ == (match input.tags {
            Some(t) => t@,
            None => Seq::<String>::empty(),
        }),
        r.variables@ == (match input.variables {
            Some(v) => v@.map_values(|v: VariableInput| variable_of_input(v)),
            None => Seq::<Variable>::empty(),
        }),
        r.auto_paste == (match input.auto_paste {
            Some(b) => b,
            None => true,
        }),
        !r.is_favorite,
        r.created_at == now,
        r.updated_at@ == now@,
{
    let folder = match input.folder {
        Some(f) => f,
        None => String::from_str("General"),
    };
    let id = compose_prompt_id(folder.as_str(), input.name.as_str(), uuid_suffix);
    let icon = match input.icon {
        Some(s) => s,
        None => String::from_str("\u{1F4DD}"),
    };
    let color = match input.color {
        Some(s) => s,
        None => String::from_str("#3B82F6"),
    };
    let tags = match input.tags {
        Some(t) => t,
        None => Vec::new(),
    };
    let variables = match input.variables {
        Some(v) => variables_from_inputs(v),
        None => Vec::new(),
    };
    let auto_paste = match input.auto_paste {
        Some(b) => b,
        None => true,
    };
    let updated_at = now.clone();
    Prompt {
        id,
        name: input.name,
        description: input.description,
        content: input.content,
        folder,
        icon,
        color,
        tags,
        variables,
        auto_paste,
        is_favorite: false,
        created_at: now,
        updated_at,
    }
}

/// Apply a partial update to a prompt.
///
/// Every supplied field replaces the stored one, every absent field stays;
/// the identifier and creation instant never change; the update instant
/// becomes the supplied one.
pub fn apply_prompt_update(prompt: Prompt, input: UpdatePromptInput, now: String) -> (r: Prompt)
    ensures
        r.id == prompt.id,
        r.created_at == prompt.created_at,
        r.updated_at == now,
        r.name == (match input.name {
            Some(n) => n,
            None => prompt.name,
        }),
        r.description == (match input.description {
            Some(d) => d,
            None => prompt.description,
        }),
        r.content == (match input.content {
            Some(c) => c,
            None => prompt.content,
        }),
        r.folder == (match input.folder {
            Some(f) => f,
            None => prompt.folder,
        }),
        r.icon == (match input.icon {
            Some(s) => s,
            None => prompt.icon,
        }),
        r.color == (match input.color {
            Some(s) => s,
            None => prompt.color,
        }),
        r.tags@ == (match input.tags {
            Some(t) => t@,
            None => prompt.tags@,
        }),
        r.variables@ == (match input.variables {
            Some(v) => v@.map_values(|v: VariableInput| variable_of_input(v)),
            None => prompt.variables@,
        }),
        r.auto_paste == (match input.auto_paste {
            Some(b) => b,
            None => prompt.auto_paste,
        }),
        r.is_favorite == (match input.is_favorite {
            Some(b) => b,
            None => prompt.is_favorite,
        }),
{
    let mut prompt = prompt;
    match input.name {
        Some(n) => {
            prompt.name = n;
        },
        None => {},
    }
    match input.description {
        Some(d) => {
            prompt.description = d;
        },
        None => {},
    }
    match input.content {
        Some(c) => {
            prompt.content = c;
        },
        None => {},
    }
    match input.folder {
        Some(f) => {
            prompt.folder = f;
        },
        None => {},
    }
    match input.icon {
        Some(s) => {
            prompt.icon = s;
        },
        None => {},
    }
    match input.color {
        Some(s) => {
            prompt.color = s;
        },
        None => {},
    }
    match input.tags {
        Some(t) => {
            prompt.tags = t;
        },
        None => {},
    }
    match input.variables {
        Some(v) => {
            prompt.variables = variables_from_inputs(v);
        },
        None => {},
    }
    match input.auto_paste {
        Some(b) => {
            prompt.auto_paste = b;
        },
        None => {},
    }
    match input.is_favorite {
        Some(b) => {
            prompt.is_favorite = b;
        },
        None => {},
    }
    prompt.updated_at = now;
    prompt
}

/// Build the copy a duplicate request describes.
///
/// The copy gets the given name, or the original's name with a copy marker;
/// a fresh identifier in the original's folder; the original's other
/// fields; fresh timestamps; and it always starts as a non-favorite.
pub fn build_duplicate(original: Prompt, new_name: Option<String>, uuid_suffix: &str, now: String)
    -> (r: Prompt)
    ensures
        r.name@ == (match new_name {
            Some(n) => n@,
            None => original.name@ + " (Copy)"@,
        }),
        r.id@ == spec_prompt_file_id(original.folder@, r.name@, uuid_suffix@),
        r.description == original.description,
        r.content == original.content,
        r.folder@ == original.folder@,
        r.icon == original.icon,
        r.color == original.color,
        r.tags@ == original.tags@,
        r.variables@ == original.variables@,
        r.auto_paste == original.auto_paste,
        !r.is_favorite,
        r.created_at == now,
        r.updated_at@ == now@,
{
    let name = match new_name {
        Some(n) => n,
        None => original.name.clone().concat(" (Copy)"),
    };
    let id = compose_prompt_id(original.folder.as_str(), name.as_str(), uuid_suffix);
    let updated_at = now.clone();
    Prompt {
        id,
        name,
        description: original.description,
        content: original.content,
        folder: original.folder,
        icon: original.icon,
        color: original.color,
        tags: original.tags,
        variables: original.variables,
        auto_paste: original.auto_paste,
        is_favorite: false,
        created_at: now,
        updated_at,
    }
}

/// Description of one folder: its identifier, display name, parent (the
/// folder structure is flat, so never one), and how many prompts it holds.
#[derive(Debug, PartialEq)]
pub struct FolderInfo {
    pub id: String,
    pub name: String,
    pub parent_id: Option<String>,
    pub prompt_count: usize,
}

/// Description of one tag: its name and how often prompts carry it.
#[derive(Debug, PartialEq)]
pub struct TagInfo {
    pub name: String,
    pub prompt_count: usize,
}

/// Whether a prompt carries a tag, compared ignoring ASCII case.
pub open spec fn spec_has_tag(p: Prompt, tag: Seq<char>) -> bool {
    exists|i: int| 0 <= i < p.tags@.len() && spec_eq_ignore_ascii_case(p.tags@[i]@, tag)
}

proof fn lemma_filter_take_step<A>(s: Seq<A>, pred: spec_fn(A) -> bool, i: int)
    requires
        0 <= i < s.len(),
    ensures
        s.take(i + 1).filter(pred) == (if pred(s[i]) {
            s.take(i).filter(pred).push(s[i])
        } else {
            s.take(i).filter(pred)
        }),
{
    assert(s.take(i + 1).drop_last() =~= s.take(i));
    assert(s.take(i + 1).last() == s[i]);
    reveal_with_fuel(Seq::filter, 2);
}

fn has_tag(p: &Prompt, tag: &str) -> (b: bool)
    ensures
        b == spec_has_tag(*p, tag@),
{
    let mut i: usize = 0;
    while i < p.tags.len()
        invariant
            0 <= i <= p.tags@.len(),
            forall|j: int| 0 <= j < i ==> !spec_eq_ignore_ascii_case(p.tags@[j]@, tag@),
        decreases p.tags@.len() - i,
    {
        if eq_ignore_ascii_case(p.tags[i].as_str(), tag) {
            return true;
        }
        i = i + 1;
    }
    false
}

/// The prompts whose folder equals `folder`, ignoring ASCII case, in their
/// given order.
pub fn get_prompts_by_folder(prompts: Vec<Prompt>, folder: &str) -> (r: Vec<Prompt>)
    ensures
        r@ == prompts@.filter(
            |p: Prompt| spec_eq_ignore_ascii_case(p.folder@, folder@),
        ),
{
    let ghost pred = |p: Prompt| spec_eq_ignore_ascii_case(p.folder@, folder@);
    let n = prompts.len();
    let mut rest = prompts;
    let ghost all = rest@;
    let mut r: Vec<Prompt> = Vec::new();
    let mut i: usize = 0;
    proof {
        assert(all.take(0).filter(pred) =~= Seq::<Prompt>::empty());
    }
    while i < n
        invariant
            0 <= i <= n,
            n == all.len(),
            rest@ == all.skip(i as int),
            pred == (|p: Prompt| spec_eq_ignore_ascii_case(p.folder@, folder@)),
            r@ == all.take(i as int).filter(pred),
        decreases n - i,
    {
        let p = rest.remove(0);
        proof {
            assert(all.skip(i as int).skip(1) =~= all.skip(i as int + 1));
            assert(p == all[i as int]);
            lemma_filter_take_step(all, pred, i as int);
        }
        if eq_ignore_ascii_case(p.folder.as_str(), folder) {
            r.push(p);
        }
        i = i + 1;
    }
    proof {
        assert(all.take(n as int) =~= all);
    }
    r
}

/// The prompts that carry `tag`, ignoring ASCII case, in their given order.
pub fn get_prompts_by_tag(prompts: Vec<Prompt>, tag: &str) -> (r: Vec<Prompt>)
    ensures
        r@ == prompts@.filter(|p: Prompt| spec_has_tag(p, tag@)),
{
    let ghost pred = |p: Prompt| spec_has_tag(p, tag@);
    let n = prompts.len();
    let mut rest = prompts;
    let ghost all = rest@;
    let mut r: Vec<Prompt> = Vec::new();
    let mut i: usize = 0;
    proof {
        assert(all.take(0).filter(pred) =~= Seq::<Prompt>::empty());
    }
    while i < n
        invariant
            0 <= i <= n,
            n == all.len(),
            rest@ == all.skip(i as int),
            pred == (|p: Prompt| spec_has_tag(p, tag@)),
            r@ == all.take(i as int).filter(pred),
        decreases n - i,
    {
        let p = rest.remove(0);
        proof {
            assert(all.skip(i as int).skip(1) =~= all.skip(i as int + 1));
            assert(p == all[i as int]);
            lemma_filter_take_step(all, pred, i as int);
        }
        if has_tag(&p, tag) {
            r.push(p);
        }
        i = i + 1;
    }
    proof {
        assert(all.take(n as int) =~= all);
    }
    r
}

/// The prompts marked as favorites, in their given order.
pub fn get_favorite_prompts(prompts: Vec<Prompt>) -> (r: Vec<Prompt>)
    ensures
        r@ == prompts@.filter(|p: Prompt| p.is_favorite),
{
    let ghost pred = |p: Prompt| p.is_favorite;
    let n = prompts.len();
    let mut rest = prompts;
    let ghost all = rest@;
    let mut r: Vec<Prompt> = Vec::new();
    let mut i: usize = 0;
    proof {
        assert(all.take(0).filter(pred) =~= Seq::<Prompt>::empty());
    }
    while i < n
        invariant
            0 <= i <= n,
            n == all.len(),
            rest@ == all.skip(i as int),
            pred == (|p: Prompt| p.is_favorite),
            r@ == all.take(i as int).filter(pred),
        decreases n - i,
    {
        let p = rest.remove(0);
        proof {
            assert(all.skip(i as int).skip(1) =~= all.skip(i as int + 1));
            assert(p == all[i as int]);
            lemma_filter_take_step(all, pred, i as int);
        }
        if p.is_favorite {
            r.push(p);
        }
        i = i + 1;
    }
    proof {
        assert(all.take(n as int) =~= all);
    }
    r
}

/// How many prompts lie in the folder named `name` (exact comparison).
pub open spec fn spec_folder_count(prompts: Seq<Prompt>, name: Seq<char>) -> nat
    decreases prompts.len(),
{
    if prompts.len() == 0 {
        0
    } else {
        spec_folder_count(prompts.drop_last(), name) + (if prompts.last().folder@ == name {
            1nat
        } else {
            0nat
        })
    }
}

proof fn lemma_folder_count_step(prompts: Seq<Prompt>, name: Seq<char>, i: int)
    requires
        0 <= i < prompts.len(),
    ensures
        spec_folder_count(prompts.take(i + 1), name) == spec_folder_count(prompts.take(i), name)
            + (if prompts[i].folder@ == name {
            1nat
        } else {
            0nat
        }),
{
    assert(prompts.take(i + 1).drop_last() =~= prompts.take(i));
    assert(prompts.take(i + 1).last() == prompts[i]);
}

proof fn lemma_folder_count_bound(prompts: Seq<Prompt>, name: Seq<char>)
    ensures
        spec_folder_count(prompts, name) <= prompts.len(),
    decreases prompts.len(),
{
    if prompts.len() > 0 {
        lemma_folder_count_bound(prompts.drop_last(), name);
    }
}

/// A positive count names a folder that some prompt actually lies in.
proof fn lemma_folder_occurrence(prompts: Seq<Prompt>, name: Seq<char>)
    requires
        spec_folder_count(prompts, name) > 0,
    ensures
        exists|j: int| 0 <= j < prompts.len() && #[trigger] prompts[j].folder@ == name,
    decreases prompts.len(),
{
    if prompts.last().folder@ == name {
        assert(prompts[prompts.len() - 1].folder@ == name);
    } else {
        lemma_folder_occurrence(prompts.drop_last(), name);
        let j = choose|j: int|
            0 <= j < prompts.drop_last().len() && #[trigger] prompts.drop_last()[j].folder@
                == name;
        assert(prompts[j].folder@ == name);
    }
}

fn count_folder(prompts: &Vec<Prompt>, name: &String) -> (count: usize)
    ensures
        count == spec_folder_count(prompts@, name@),
{
    let mut count: usize = 0;
    let mut j: usize = 0;
    proof {
        assert(prompts@.take(0) =~= Seq::<Prompt>::empty());
    }
    while j < prompts.len()
        invariant
            0 <= j <= prompts@.len(),
            count == spec_folder_count(prompts@.take(j as int), name@),
            count <= j,
        decreases prompts@.len() - j,
    {
        proof {
            lemma_folder_count_step(prompts@, name@, j as int);
        }
        if prompts[j].folder == *name {
            count = count + 1;
        }
        j = j + 1;
    }
    proof {
        assert(prompts@.take(prompts@.len() as int) =~= prompts@);
    }
    count
}

/// Summarize the folders of a prompt list: one entry per distinct folder
/// name, each with its exact prompt count; every prompt's folder is
/// covered.
#[verifier::rlimit(60)]
pub fn get_folders(prompts: &Vec<Prompt>) -> (r: Vec<FolderInfo>)
    ensures
        forall|k: int|
            0 <= k < r@.len() ==> {
                let e = #[trigger] r@[k];
                &&& e.id@ == e.name@
                &&& e.parent_id is None
                &&& e.prompt_count == spec_folder_count(prompts@, e.name@)
                &&& e.prompt_count > 0
            },
        forall|k1: int, k2: int|
            0 <= k1 < k2 < r@.len() ==> r@[k1].name@ != r@[k2].name@,
        forall|i: int|
            #![trigger prompts@[i]]
            0 <= i < prompts@.len() ==> exists|k: int|
                0 <= k < r@.len() && #[trigger] r@[k].name@ == prompts@[i].folder@,
{
    let mut r: Vec<FolderInfo> = Vec::new();
    let mut i: usize = 0;
    proof {
        assert(prompts@.take(0) =~= Seq::<Prompt>::empty());
    }
    while i < prompts.len()
        invariant
            0 <= i <= prompts@.len(),
            forall|k: int|
                0 <= k < r@.len() ==> {
                    let e = #[trigger] r@[k];
                    &&& e.id@ == e.name@
                    &&& e.parent_id is None
                    &&& e.prompt_count == spec_folder_count(prompts@, e.name@)
                    &&& spec_folder_count(prompts@.take(i as int), e.name@) > 0
                },
            forall|k1: int, k2: int|
                0 <= k1 < k2 < r@.len() ==> r@[k1].name@ != r@[k2].name@,
            forall|j: int|
                #![trigger prompts@[j]]
                0 <= j < i ==> exists|k: int|
                    0 <= k < r@.len() && #[trigger] r@[k].name@ == prompts@[j].folder@,
        decreases prompts@.len() - i,
    {
        let ghost fi = prompts@[i as int].folder@;
        let ghost r0 = r@;
        let mut seen = false;
        let mut j: usize = 0;
        proof {
            assert(prompts@.take(0) =~= Seq::<Prompt>::empty());
        }
        while j < i
            invariant
                0 <= j <= i < prompts@.len(),
                fi == prompts@[i as int].folder@,
                seen <==> spec_folder_count(prompts@.take(j as int), fi) > 0,
            decreases i - j,
        {
            proof {
                lemma_folder_count_step(prompts@, fi, j as int);
            }
            if prompts[j].folder == prompts[i].folder {
                seen = true;
            }
            j = j + 1;
        }
        if !seen {
            let count = count_folder(prompts, &prompts[i].folder);
            let name = prompts[i].folder.clone();
            let id = prompts[i].folder.clone();
            proof {
                // No earlier prompt lies in this folder, while every stored
                // entry's folder does: the new name is fresh.
                assert forall|k1: int|
                    0 <= k1 < r@.len() implies r@[k1].name@ != fi by {
                    if r@[k1].name@ == fi {
                        assert(spec_folder_count(prompts@.take(i as int), fi) > 0);
                    }
                }
                // This folder does occur at position `i` itself.
                lemma_folder_count_step(prompts@, fi, i as int);
            }
            r.push(FolderInfo { id, name, parent_id: None, prompt_count: count });
        }
        proof {
            // Every stored entry's folder still occurs among the first
            // `i + 1` prompts.
            assert forall|k: int|
                0 <= k < r@.len() implies spec_folder_count(
                    prompts@.take(i as int + 1),
                    r@[k].name@,
                ) > 0 by {
                lemma_folder_count_step(prompts@, r@[k].name@, i as int);
                if k < r0.len() {
                    assert(r@[k] == r0[k]);
                }
            }
            // Every prompt up to and including position `i` is covered: the
            // old entries still stand, and position `i` itself is served by
            // the fresh entry or through the earlier prompt that shares its
            // folder.
            assert forall|j: int|
                #![trigger prompts@[j]]
                0 <= j < i + 1 implies exists|k: int|
                    0 <= k < r@.len() && #[trigger] r@[k].name@ == prompts@[j].folder@ by {
                if j == i {
                    if seen {
                        lemma_folder_occurrence(prompts@.take(i as int), fi);
                        let j2 = choose|j2: int|
                            0 <= j2 < prompts@.take(i as int).len() && #[trigger] prompts@.take(
                                i as int,
                            )[j2].folder@ == fi;
                        assert(prompts@[j2].folder@ == fi);
                        let k = choose|k: int|
                            0 <= k < r0.len() && #[trigger] r0[k].name@ == prompts@[j2].folder@;
                        assert(r@[k] == r0[k]);
                        assert(r@[k].name@ == prompts@[j].folder@);
                    } else {
                        assert(r@[r@.len() - 1].name@ == prompts@[j].folder@);
                    }
                } else {
                    let k = choose|k: int|
                        0 <= k < r0.len() && #[trigger] r0[k].name@ == prompts@[j].folder@;
                    assert(r@[k] == r0[k]);
                    assert(r@[k].name@ == prompts@[j].folder@);
                }
            }
        }
        i = i + 1;
    }
    proof {
        assert(prompts@.take(prompts@.len() as int) =~= prompts@);
    }
    r
}


/// Every tag instance of a prompt list, prompt by prompt, in order.
pub open spec fn spec_all_tags(prompts: Seq<Prompt>) -> Seq<String> {
    prompts.map_values(|p: Prompt| p.tags@).flatten()
}

/// How many times a tag occurs in a list of tag instances.
pub open spec fn spec_tag_count(tags: Seq<String>, name: Seq<char>) -> nat
    decreases tags.len(),
{
    if tags.len() == 0 {
        0
    } else {
        spec_tag_count(tags.drop_last(), name) + (if tags.last()@ == name {
            1nat
        } else {
            0nat
        })
    }
}

proof fn lemma_tag_count_step(tags: Seq<String>, name: Seq<char>, i: int)
    requires
        0 <= i < tags.len(),
    ensures
        spec_tag_count(tags.take(i + 1), name) == spec_tag_count(tags.take(i), name) + (
        if tags[i]@ == name {
            1nat
        } else {
            0nat
        }),
{
    assert(tags.take(i + 1).drop_last() =~= tags.take(i));
    assert(tags.take(i + 1).last() == tags[i]);
}

/// A positive count names a tag that some instance actually carries.
proof fn lemma_tag_occurrence(tags: Seq<String>, name: Seq<char>)
    requires
        spec_tag_count(tags, name) > 0,
    ensures
        exists|j: int| 0 <= j < tags.len() && #[trigger] tags[j]@ == name,
    decreases tags.len(),
{
    if tags.last()@ == name {
        assert(tags[tags.len() - 1]@ == name);
    } else {
        lemma_tag_occurrence(tags.drop_last(), name);
        let j = choose|j: int|
            0 <= j < tags.drop_last().len() && #[trigger] tags.drop_last()[j]@ == name;
        assert(tags[j]@ == name);
    }
}

fn count_tag(tags: &Vec<String>, name: &String) -> (count: usize)
    ensures
        count == spec_tag_count(tags@, name@),
{
    let mut count: usize = 0;
    let mut j: usize = 0;
    proof {
        assert(tags@.take(0) =~= Seq::<String>::empty());
    }
    while j < tags.len()
        invariant
            0 <= j <= tags@.len(),
            count == spec_tag_count(tags@.take(j as int), name@),
            count <= j,
        decreases tags@.len() - j,
    {
        proof {
            lemma_tag_count_step(tags@, name@, j as int);
        }
        if tags[j] == *name {
            count = count + 1;
        }
        j = j + 1;
    }
    proof {
        assert(tags@.take(tags@.len() as int) =~= tags@);
    }
    count
}

/// Collect every tag instance of every prompt, in order.
fn flatten_tags(prompts: &Vec<Prompt>) -> (r: Vec<String>)
    ensures
        r@ == spec_all_tags(prompts@),
{
    broadcast use Seq::lemma_flatten_push;

    let mut r: Vec<String> = Vec::new();
    let mut i: usize = 0;
    proof {
        assert(prompts@.take(0).map_values(|p: Prompt| p.tags@) =~= Seq::<Seq<String>>::empty());
        assert(Seq::<Seq<String>>::empty().flatten() =~= Seq::<String>::empty());
    }
    while i < prompts.len()
        invariant
            0 <= i <= prompts@.len(),
            r@ == prompts@.take(i as int).map_values(|p: Prompt| p.tags@).flatten(),
        decreases prompts@.len() - i,
    {
        let ghost r0 = r@;
        let tags = &prompts[i].tags;
        let mut j: usize = 0;
        while j < tags.len()
            invariant
                0 <= j <= tags@.len(),
                tags@ == prompts@[i as int].tags@,
                0 <= i < prompts@.len(),
                r@ == r0 + tags@.take(j as int),
            decreases tags@.len() - j,
        {
            r.push(tags[j].clone());
            proof {
                assert(r@ =~= r0 + tags@.take(j as int + 1));
            }
            j = j + 1;
        }
        proof {
            assert(tags@.take(tags@.len() as int) =~= tags@);
            let m = prompts@.take(i as int).map_values(|p: Prompt| p.tags@);
            assert(prompts@.take(i as int + 1).map_values(|p: Prompt| p.tags@) =~= m.push(
                prompts@[i as int].tags@,
            ));
            m.lemma_flatten_push(prompts@[i as int].tags@);
            assert(r@ =~= prompts@.take(i as int + 1).map_values(
                |p: Prompt| p.tags@,
            ).flatten());
        }
        i = i + 1;
    }
    proof {
        assert(prompts@.take(prompts@.len() as int) =~= prompts@);
    }
    r
}

/// Summarize the tags of a prompt list: one entry per distinct tag,
/// counting every instance a prompt carries; every instance is covered.
#[verifier::rlimit(60)]
pub fn get_tags(prompts: &Vec<Prompt>) -> (r: Vec<TagInfo>)
    ensures
        forall|k: int|
            0 <= k < r@.len() ==> {
                let e = #[trigger] r@[k];
                &&& e.prompt_count == spec_tag_count(spec_all_tags(prompts@), e.name@)
                &&& e.prompt_count > 0
            },
        forall|k1: int, k2: int|
            0 <= k1 < k2 < r@.len() ==> r@[k1].name@ != r@[k2].name@,
        forall|x: int|
            #![trigger spec_all_tags(prompts@)[x]]
            0 <= x < spec_all_tags(prompts@).len() ==> exists|k: int|
                0 <= k < r@.len() && #[trigger] r@[k].name@ == spec_all_tags(prompts@)[x]@,
{
    let all = flatten_tags(prompts);
    let mut r: Vec<TagInfo> = Vec::new();
    let mut i: usize = 0;
    proof {
        assert(all@.take(0) =~= Seq::<String>::empty());
    }
    while i < all.len()
        invariant
            0 <= i <= all@.len(),
            all@ == spec_all_tags(prompts@),
            forall|k: int|
                0 <= k < r@.len() ==> {
                    let e = #[trigger] r@[k];
                    &&& e.prompt_count == spec_tag_count(all@, e.name@)
                    &&& spec_tag_count(all@.take(i as int), e.name@) > 0
                },
            forall|k1: int, k2: int|
                0 <= k1 < k2 < r@.len() ==> r@[k1].name@ != r@[k2].name@,
            forall|x: int|
                #![trigger all@[x]]
                0 <= x < i ==> exists|k: int|
                    0 <= k < r@.len() && #[trigger] r@[k].name@ == all@[x]@,
        decreases all@.len() - i,
    {
        let ghost ti = all@[i as int]@;
        let ghost r0 = r@;
        let mut seen = false;
        let mut j: usize = 0;
        proof {
            assert(all@.take(0) =~= Seq::<String>::empty());
        }
        while j < i
            invariant
                0 <= j <= i < all@.len(),
                ti == all@[i as int]@,
                seen <==> spec_tag_count(all@.take(j as int), ti) > 0,
            decreases i - j,
        {
            proof {
                lemma_tag_count_step(all@, ti, j as int);
            }
            if all[j] == all[i] {
                seen = true;
            }
            j = j + 1;
        }
        if !seen {
            let count = count_tag(&all, &all[i]);
            let name = all[i].clone();
            proof {
                assert forall|k1: int| 0 <= k1 < r@.len() implies r@[k1].name@ != ti by {
                    if r@[k1].name@ == ti {
                        assert(spec_tag_count(all@.take(i as int), ti) > 0);
                    }
                }
                lemma_tag_count_step(all@, ti, i as int);
            }
            r.push(TagInfo { name, prompt_count: count });
        }
        proof {
            assert forall|k: int|
                0 <= k < r@.len() implies spec_tag_count(all@.take(i as int + 1), r@[k].name@)
                    > 0 by {
                lemma_tag_count_step(all@, r@[k].name@, i as int);
                if k < r0.len() {
                    assert(r@[k] == r0[k]);
                }
            }
            assert forall|x: int|
                #![trigger all@[x]]
                0 <= x < i + 1 implies exists|k: int|
                    0 <= k < r@.len() && #[trigger] r@[k].name@ == all@[x]@ by {
                if x == i {
                    if seen {
                        lemma_tag_occurrence(all@.take(i as int), ti);
                        let j2 = choose|j2: int|
                            0 <= j2 < all@.take(i as int).len() && #[trigger] all@.take(
                                i as int,
                            )[j2]@ == ti;
                        assert(all@[j2]@ == ti);
                        let k = choose|k: int|
                            0 <= k < r0.len() && #[trigger] r0[k].name@ == all@[j2]@;
                        assert(r@[k] == r0[k]);
                        assert(r@[k].name@ == all@[x]@);
                    } else {
                        assert(r@[r@.len() - 1].name@ == all@[x]@);
                    }
                } else {
                    let k = choose|k: int|
                        0 <= k < r0.len() && #[trigger] r0[k].name@ == all@[x]@;
                    assert(r@[k] == r0[k]);
                    assert(r@[k].name@ == all@[x]@);
                }
            }
        }
        i = i + 1;
    }
    proof {
        assert(all@.take(all@.len() as int) =~= all@);
    }
    r
}

} // verus!
