//! Version history records and usage statistics: the pure parts.
//!
//! Version files live beside the prompt store; reading and writing them
//! happens outside the library.  What is verified here is how a version
//! entry is built from a prompt, how a version is restored into a prompt,
//! how histories are ordered, and how usage data becomes a report.

use vstd::prelude::*;

use crate::prompt::Prompt;
use vstd::multiset::Multiset;
use vstd::string::StringExecFns;

verus! {

/// One entry of a prompt's version history.
#[derive(Debug, PartialEq)]
pub struct VersionInfo {
    pub id: String,
    pub prompt_id: String,
    pub version_number: i32,
    pub content: String,
    pub name: String,
    pub description: String,
    pub change_summary: Option<String>,
    pub created_at: String,
    pub created_by: Option<String>,
}

/// Build the next version entry for a prompt: numbered one past the
/// existing count, snapshotting the prompt's content, name and
/// description, stamped with the supplied identifier and instant.
pub fn build_version_entry(
    prompt: &Prompt,
    version_id: String,
    existing_count: usize,
    change_summary: Option<String>,
    now: String,
) -> (r: VersionInfo)
    requires
        existing_count + 1 <= i32::MAX,
    ensures
        r.id == version_id,
        r.prompt_id@ == prompt.id@,
        r.version_number == existing_count + 1,
        r.content@ == prompt.content@,
        r.name@ == prompt.name@,
        r.description@ == prompt.description@,
        r.change_summary == change_summary,
        r.created_at == now,
        r.created_by is None,
{
    VersionInfo {
        id: version_id,
        prompt_id: prompt.id.clone(),
        version_number: (existing_count + 1) as i32,
        content: prompt.content.clone(),
        name: prompt.name.clone(),
        description: prompt.description.clone(),
        change_summary,
        created_at: now,
        created_by: None,
    }
}

/// Restore a version into a prompt: content, name and description come
/// back from the version, the update instant becomes the supplied one,
/// and everything else stays.
pub fn apply_version_restore(prompt: Prompt, version: &VersionInfo, now: String) -> (r: Prompt)
    ensures
        r.content@ == version.content@,
        r.name@ == version.name@,
        r.description@ == version.description@,
        r.updated_at == now,
        r.id == prompt.id,
        r.folder == prompt.folder,
        r.icon == prompt.icon,
        r.color == prompt.color,
        r.tags@ == prompt.tags@,
        r.variables@ == prompt.variables@,
        r.auto_paste == prompt.auto_paste,
        r.is_favorite == prompt.is_favorite,
        r.created_at == prompt.created_at,
{
    let mut prompt = prompt;
    prompt.content = version.content.clone();
    prompt.name = version.name.clone();
    prompt.description = version.description.clone();
    prompt.updated_at = now;
    prompt
}

proof fn lemma_to_multiset_insert_version(s: Seq<VersionInfo>, pos: int, x: VersionInfo)
    requires
        0 <= pos <= s.len(),
    ensures
        s.insert(pos, x).to_multiset() =~= s.to_multiset().insert(x),
{
    broadcast use vstd::seq_lib::group_to_multiset_ensures;

    let a = s.take(pos);
    let b = s.skip(pos);
    assert(s =~= a + b);
    assert(s.insert(pos, x) =~= a.push(x) + b);
    vstd::seq_lib::lemma_multiset_commutative(a.push(x), b);
    vstd::seq_lib::lemma_multiset_commutative(a, b);
}

proof fn lemma_to_multiset_drop_first_version(s: Seq<VersionInfo>)
    requires
        s.len() > 0,
    ensures
        s.to_multiset() =~= s.skip(1).to_multiset().insert(s[0]),
{
    broadcast use vstd::seq_lib::group_to_multiset_ensures;

    assert(s =~= seq![s[0]] + s.skip(1));
    assert(seq![s[0]] =~= Seq::<VersionInfo>::empty().push(s[0]));
    vstd::seq_lib::lemma_multiset_commutative(seq![s[0]], s.skip(1));
}

/// Order a version history newest-numbered first, keeping exactly the
/// given entries.
pub fn sort_versions_desc(versions: Vec<VersionInfo>) -> (r: Vec<VersionInfo>)
    ensures
        r@.to_multiset() == versions@.to_multiset(),
        r@.len() == versions@.len(),
        forall|k1: int, k2: int|
            0 <= k1 <= k2 < r@.len() ==> r@[k1].version_number >= r@[k2].version_number,
{
    let ghost all = versions@;
    let mut rest = versions;
    let mut out: Vec<VersionInfo> = Vec::new();
    proof {
        broadcast use vstd::seq_lib::group_to_multiset_ensures;
        broadcast use vstd::multiset::lemma_multiset_empty_len;

        assert(out@.to_multiset().len() == 0);
        assert(out@.to_multiset() =~= Multiset::<VersionInfo>::empty());
        assert(out@.to_multiset().add(rest@.to_multiset()) =~= all.to_multiset());
    }
    while rest.len() > 0
        invariant
            out@.len() + rest@.len() == all.len(),
            out@.to_multiset().add(rest@.to_multiset()) =~= all.to_multiset(),
            forall|k1: int, k2: int|
                0 <= k1 <= k2 < out@.len() ==> out@[k1].version_number
                    >= out@[k2].version_number,
        decreases rest@.len(),
    {
        let ghost rest0 = rest@;
        let x = rest.remove(0);
        proof {
            lemma_to_multiset_drop_first_version(rest0);
            assert(rest@ =~= rest0.skip(1));
        }
        let mut pos: usize = 0;
        while pos < out.len() && out[pos].version_number >= x.version_number
            invariant
                0 <= pos <= out@.len(),
                forall|j: int| 0 <= j < pos ==> out@[j].version_number >= x.version_number,
            decreases out@.len() - pos,
        {
            pos = pos + 1;
        }
        let ghost out0 = out@;
        out.insert(pos, x);
        proof {
            lemma_to_multiset_insert_version(out0, pos as int, x);
            assert(out@ == out0.insert(pos as int, x));
            assert forall|k1: int, k2: int|
                0 <= k1 <= k2 < out@.len() implies out@[k1].version_number
                    >= out@[k2].version_number by {
                if k1 < pos {
                    assert(out@[k1] == out0[k1]);
                } else if k1 == pos {
                    assert(out@[k1] == x);
                } else {
                    assert(out@[k1] == out0[k1 - 1]);
                }
                if k2 < pos {
                    assert(out@[k2] == out0[k2]);
                } else if k2 == pos {
                    assert(out@[k2] == x);
                } else {
                    assert(out@[k2] == out0[k2 - 1]);
                }
            }
        }
    }
    proof {
        broadcast use vstd::seq_lib::group_to_multiset_ensures;
        broadcast use vstd::multiset::lemma_multiset_empty_len;

        assert(rest@.to_multiset().len() == 0);
        assert(rest@.to_multiset() =~= Multiset::<VersionInfo>::empty());
        assert(out@.to_multiset().add(rest@.to_multiset()) =~= out@.to_multiset());
    }
    out
}

/// Usage statistics reported for one prompt.
#[derive(Debug, PartialEq)]
pub struct UsageStatsInfo {
    pub prompt_id: String,
    pub use_count: i32,
    pub last_used: String,
}

/// Turn recorded usage into a report: the recorded count and instant, or
/// zero uses and "never" when nothing was recorded.
pub fn usage_stats_for(prompt_id: String, usage: Option<(u32, String)>) -> (r: UsageStatsInfo)
    requires
        usage matches Some(u) ==> u.0 <= i32::MAX as u32,
    ensures
        r.prompt_id == prompt_id,
        match usage {
            Some(u) => r.use_count == u.0 && r.last_used == u.1,
            None => r.use_count == 0 && r.last_used@ == "never"@,
        },
{
    match usage {
        Some((count, last_used)) => UsageStatsInfo {
            prompt_id,
            use_count: count as i32,
            last_used,
        },
        None => UsageStatsInfo {
            prompt_id,
            use_count: 0,
            last_used: String::from_str("never"),
        },
    }
}

} // verus!
