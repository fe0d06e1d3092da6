//! Fuzzy search over prompts, ranked by a weighted best-field score.
//!
//! Each prompt is matched against the query in four fields — name,
//! description, tags and content — with descending weights; the prompt's
//! score is the best weighted field score, and only prompts with a
//! positive score are reported, highest first.  The character-level fuzzy
//! score comes from an outside matcher and is treated as an opaque
//! function of the two strings.

use vstd::prelude::*;

use fuzzy_matcher::skim::SkimMatcherV2;

use crate::prompt::{prompt_like, Prompt};
use vstd::multiset::Multiset;
use vstd::string::{StringExecFns, StringSliceAdditionalSpecFns};

verus! {

/// The fuzzy score a freshly built matcher in its standard configuration
/// assigns to `choice` against `pattern`, if they match at all.  Starting
/// from an empty score matrix, the score depends on the two strings
/// alone.
pub uninterp spec fn fuzzy_score(choice: Seq<char>, pattern: Seq<char>) -> Option<i64>;

/// Relies on `fuzzy_matcher::skim::SkimMatcherV2::default` and
/// `SkimMatcherV2::fuzzy_match` (through the `FuzzyMatcher` trait): a
/// freshly built matcher scores from an empty matrix, so the result is a
/// deterministic function of the choice and pattern strings.  A matcher
/// is deliberately not kept across calls: its thread-local score matrix
/// survives a call, and cells left by one pair of strings can raise the
/// score of the next.  (The matcher's own cache-off mode is no way out:
/// its cleanup path panics on a still-borrowed cell.)
#[verifier::external_body]
fn skim_fuzzy_match(choice: &str, pattern: &str) -> (r: Option<i64>)
    ensures
        r == fuzzy_score(choice@, pattern@),
{
    fuzzy_matcher::FuzzyMatcher::fuzzy_match(&SkimMatcherV2::default(), choice, pattern)
}

/// A matched range within one searched field.
#[derive(Debug, PartialEq)]
pub struct MatchRange {
    pub field: String,
    pub start: usize,
    pub end: usize,
}

impl Clone for MatchRange {
    fn clone(&self) -> (res: Self)
        ensures
            res == *self,
    {
        MatchRange { field: self.field.clone(), start: self.start, end: self.end }
    }
}

/// One search hit: the prompt, its score, and where the query matched.
#[derive(Debug)]
pub struct SearchResult {
    pub prompt: Prompt,
    pub score: i64,
    pub matches: Vec<MatchRange>,
}

/// Search service interface.
pub trait SearchService {
    /// Search prompts with the given query, best hits first.
    fn search(&self, query: &str, prompts: &[Prompt]) -> Vec<SearchResult>;
}

/// A weighted score clamped into the signed 64-bit range.
pub open spec fn spec_weighted_score(s: int, w: int) -> int {
    if s * w > i64::MAX as int {
        i64::MAX as int
    } else if s * w < i64::MIN as int {
        i64::MIN as int
    } else {
        s * w
    }
}

/// The weighted score of one field, zero when the field does not match.
pub open spec fn spec_field_score(q: Seq<char>, text: Seq<char>, w: int) -> int {
    match fuzzy_score(text, q) {
        Some(s) => spec_weighted_score(s as int, w),
        None => 0,
    }
}

/// The weight of a name match.
pub const NAME_WEIGHT: i64 = 100;

/// The weight of a tag match.
pub const TAG_WEIGHT: i64 = 75;

/// The weight of a description match.
pub const DESCRIPTION_WEIGHT: i64 = 50;

/// The weight of a content match.
pub const CONTENT_WEIGHT: i64 = 25;

/// The best weighted tag score of a tag list, zero for no match.
pub open spec fn spec_tags_best(q: Seq<char>, tags: Seq<String>) -> int
    decreases tags.len(),
{
    if tags.len() == 0 {
        0
    } else {
        let rest = spec_tags_best(q, tags.drop_last());
        let last = spec_field_score(q, tags.last()@, TAG_WEIGHT as int);
        if last > rest {
            last
        } else {
            rest
        }
    }
}

/// A prompt's score: the best weighted score over its name, its
/// description (only when it has one), its tags, and its content, floored
/// at zero.
pub open spec fn spec_best_score(q: Seq<char>, p: Prompt) -> int {
    let n = spec_field_score(q, p.name@, NAME_WEIGHT as int);
    let d = if p.description@.len() > 0 {
        spec_field_score(q, p.description@, DESCRIPTION_WEIGHT as int)
    } else {
        0
    };
    let t = spec_tags_best(q, p.tags@);
    let c = spec_field_score(q, p.content@, CONTENT_WEIGHT as int);
    let m1 = if n > 0 {
        n
    } else {
        0
    };
    let m2 = if d > m1 {
        d
    } else {
        m1
    };
    let m3 = if t > m2 {
        t
    } else {
        m2
    };
    if c > m3 {
        c
    } else {
        m3
    }
}

/// A prompt's score is the same for any equal-valued copy of the prompt.
pub proof fn lemma_best_score_like(q: Seq<char>, a: Prompt, b: Prompt)
    requires
        prompt_like(a, b),
    ensures
        spec_best_score(q, a) == spec_best_score(q, b),
{
}

/// One reported range is honest: it spans the query's byte length from
/// zero, and the field it names did match the query.
pub open spec fn spec_entry_ok(q: Seq<char>, q_bytes: int, p: Prompt, m: MatchRange) -> bool {
    &&& m.start == 0 && m.end == q_bytes
    &&& m.field@ == "name"@ ==> fuzzy_score(p.name@, q) is Some
    &&& m.field@ == "description"@ ==> (p.description@.len() > 0 && fuzzy_score(
        p.description@,
        q,
    ) is Some)
    &&& m.field@ == "tags"@ ==> (exists|t: int|
        0 <= t < p.tags@.len() && fuzzy_score((#[trigger] p.tags@[t])@, q) is Some)
    &&& m.field@ == "content"@ ==> fuzzy_score(p.content@, q) is Some
}

/// What a hit's match list reports: every entry is honest, and every
/// field that matched is listed — the description only counting when the
/// prompt has one.
pub open spec fn spec_matches_ok(
    q: Seq<char>,
    q_bytes: int,
    p: Prompt,
    ms: Seq<MatchRange>,
) -> bool {
    &&& forall|k: int| 0 <= k < ms.len() ==> spec_entry_ok(q, q_bytes, p, #[trigger] ms[k])
    &&& fuzzy_score(p.name@, q) is Some ==> (exists|k: int|
        0 <= k < ms.len() && (#[trigger] ms[k]).field@ == "name"@)
    &&& (p.description@.len() > 0 && fuzzy_score(p.description@, q) is Some) ==> (exists|k: int|
        0 <= k < ms.len() && (#[trigger] ms[k]).field@ == "description"@)
    &&& (exists|t: int| 0 <= t < p.tags@.len() && fuzzy_score((#[trigger] p.tags@[t])@, q) is Some)
        ==> (exists|k: int| 0 <= k < ms.len() && (#[trigger] ms[k]).field@ == "tags"@)
    &&& fuzzy_score(p.content@, q) is Some ==> (exists|k: int|
        0 <= k < ms.len() && (#[trigger] ms[k]).field@ == "content"@)
}

/// Multiply a field score by its weight, clamping instead of overflowing.
fn weight_score(s: i64, w: i64) -> (r: i64)
    requires
        w > 0,
    ensures
        r as int == spec_weighted_score(s as int, w as int),
{
    match s.checked_mul(w) {
        Some(p) => p,
        None => {
            if s > 0 {
                proof {
                    assert(s as int * w as int > 0) by (nonlinear_arith)
                        requires
                            s > 0,
                            w > 0,
                    ;
                }
                i64::MAX
            } else {
                proof {
                    assert(s as int * w as int <= 0) by (nonlinear_arith)
                        requires
                            s <= 0,
                            w > 0,
                    ;
                }
                i64::MIN
            }
        },
    }
}

/// Fuzzy search backed by the skim matcher in its standard configuration.
/// Every field comparison scores with a fresh matcher, so no state leaks
/// from one comparison into the next.
pub struct FuzzySearchService;

impl FuzzySearchService {
    pub fn new() -> (r: FuzzySearchService) {
        FuzzySearchService
    }

    /// Match one field, returning its weighted score and reported range.
    fn search_field(&self, query: &str, text: &str, field: &str, weight: i64) -> (r: Option<
        (i64, MatchRange),
    >)
        requires
            weight > 0,
        ensures
            match r {
                Some(p) => fuzzy_score(text@, query@) matches Some(s) && p.0 as int
                    == spec_weighted_score(s as int, weight as int) && p.1.field@ == field@
                    && p.1.start == 0 && p.1.end == query.spec_bytes().len() as usize,
                None => fuzzy_score(text@, query@) is None,
            },
    {
        match skim_fuzzy_match(text, query) {
            Some(score) => {
                let weighted = weight_score(score, weight);
                Some(
                    (
                        weighted,
                        MatchRange { field: field.to_owned(), start: 0, end: query.len() },
                    ),
                )
            },
            None => None,
        }
    }

    /// Score one prompt against the query, collecting its match ranges.
    fn score_prompt(&self, query: &str, prompt: &Prompt) -> (r: (i64, Vec<MatchRange>))
        ensures
            r.0 as int == spec_best_score(query@, *prompt),
            spec_matches_ok(
                query@,
                query.spec_bytes().len() as usize as int,
                *prompt,
                r.1@,
            ),
    {
        proof {
            reveal_strlit("name");
            reveal_strlit("description");
            reveal_strlit("tags");
            reveal_strlit("content");
            assert("name"@.len() == 4 && "description"@.len() == 11 && "tags"@.len() == 4
                && "content"@.len() == 7);
            assert("name"@[0] == 'n' && "tags"@[0] == 't');
            assert("name"@ != "description"@ && "name"@ != "tags"@ && "name"@ != "content"@);
            assert("description"@ != "tags"@ && "description"@ != "content"@);
            assert("tags"@ != "content"@);
        }
        let ghost q = query@;
        let ghost q_bytes = query.spec_bytes().len() as usize as int;
        let mut best: i64 = 0;
        let mut matches: Vec<MatchRange> = Vec::new();
        let ghost mut name_at: int = 0;
        let ghost mut desc_at: int = 0;
        let ghost mut tags_at: int = 0;
        match self.search_field(query, prompt.name.as_str(), "name", NAME_WEIGHT) {
            Some((score, mr)) => {
                if score > best {
                    best = score;
                }
                matches.push(mr);
                proof {
                    name_at = matches@.len() - 1;
                    assert(spec_entry_ok(q, q_bytes, *prompt, matches@[name_at]));
                }
            },
            None => {},
        }
        let ghost m1 = if spec_field_score(q, prompt.name@, NAME_WEIGHT as int) > 0 {
            spec_field_score(q, prompt.name@, NAME_WEIGHT as int)
        } else {
            0
        };
        proof {
            assert(best as int == m1);
        }
        if !prompt.description.as_str().is_empty() {
            match self.search_field(
                query,
                prompt.description.as_str(),
                "description",
                DESCRIPTION_WEIGHT,
            ) {
                Some((score, mr)) => {
                    if score > best {
                        best = score;
                    }
                    matches.push(mr);
                    proof {
                        desc_at = matches@.len() - 1;
                        assert(spec_entry_ok(q, q_bytes, *prompt, matches@[desc_at]));
                    }
                },
                None => {},
            }
        }
        let ghost d = if prompt.description@.len() > 0 {
            spec_field_score(q, prompt.description@, DESCRIPTION_WEIGHT as int)
        } else {
            0
        };
        let ghost m2 = if d > m1 {
            d
        } else {
            m1
        };
        proof {
            assert(best as int == m2);
        }
        let ghost tags = prompt.tags@;
        let mut t: usize = 0;
        proof {
            assert(tags.take(0) =~= Seq::<String>::empty());
        }
        while t < prompt.tags.len()
            invariant
                0 <= t <= tags.len(),
                tags == prompt.tags@,
                q == query@,
                q_bytes == query.spec_bytes().len() as usize as int,
                best as int == (if spec_tags_best(q, tags.take(t as int)) > m2 {
                    spec_tags_best(q, tags.take(t as int))
                } else {
                    m2
                }),
                m2 >= 0,
                forall|k: int|
                    0 <= k < matches@.len() ==> spec_entry_ok(
                        q,
                        q_bytes,
                        *prompt,
                        #[trigger] matches@[k],
                    ),
                fuzzy_score(prompt.name@, q) is Some ==> 0 <= name_at < matches@.len()
                    && matches@[name_at].field@ == "name"@,
                (prompt.description@.len() > 0 && fuzzy_score(prompt.description@, q) is Some)
                    ==> 0 <= desc_at < matches@.len() && matches@[desc_at].field@
                    == "description"@,
                (exists|t2: int|
                    0 <= t2 < t && fuzzy_score((#[trigger] tags[t2])@, q) is Some) ==> 0
                    <= tags_at < matches@.len() && matches@[tags_at].field@ == "tags"@,
            decreases tags.len() - t,
        {
            proof {
                reveal_strlit("name");
                reveal_strlit("description");
                reveal_strlit("tags");
                reveal_strlit("content");
                assert("name"@.len() == 4 && "description"@.len() == 11 && "tags"@.len() == 4
                    && "content"@.len() == 7);
                assert("name"@[0] == 'n' && "tags"@[0] == 't');
                lemma_tags_best_step(q, tags, t as int);
                lemma_tags_best_nonneg(q, tags.take(t as int));
            }
            match self.search_field(query, prompt.tags[t].as_str(), "tags", TAG_WEIGHT) {
                Some((score, mr)) => {
                    if score > best {
                        best = score;
                    }
                    matches.push(mr);
                    proof {
                        tags_at = matches@.len() - 1;
                        assert((t as int) < prompt.tags@.len() && fuzzy_score(
                            (prompt.tags@[t as int])@,
                            q,
                        ) is Some);
                        assert(exists|t2: int|
                            0 <= t2 < prompt.tags@.len() && fuzzy_score(
                                (#[trigger] prompt.tags@[t2])@,
                                q,
                            ) is Some);
                        assert(spec_entry_ok(q, q_bytes, *prompt, matches@[tags_at]));
                    }
                },
                None => {},
            }
            proof {
                if exists|t2: int|
                    0 <= t2 < t + 1 && fuzzy_score((#[trigger] tags[t2])@, q) is Some {
                    if fuzzy_score(tags[t as int]@, q) is Some {
                        assert(matches@[tags_at].field@ == "tags"@);
                    } else {
                        assert(exists|t2: int|
                            0 <= t2 < t && fuzzy_score((#[trigger] tags[t2])@, q) is Some);
                    }
                }
            }
            t = t + 1;
        }
        let ghost m3 = if spec_tags_best(q, tags) > m2 {
            spec_tags_best(q, tags)
        } else {
            m2
        };
        proof {
            assert(tags.take(tags.len() as int) =~= tags);
            assert(best as int == m3);
        }
        match self.search_field(query, prompt.content.as_str(), "content", CONTENT_WEIGHT) {
            Some((score, mr)) => {
                if score > best {
                    best = score;
                }
                matches.push(mr);
                proof {
                    assert(spec_entry_ok(q, q_bytes, *prompt, matches@[matches@.len() - 1]));
                }
            },
            None => {},
        }
        proof {
            assert(best as int == spec_best_score(q, *prompt));
            if fuzzy_score(prompt.name@, q) is Some {
                assert(matches@[name_at].field@ == "name"@);
            }
            if prompt.description@.len() > 0 && fuzzy_score(prompt.description@, q) is Some {
                assert(matches@[desc_at].field@ == "description"@);
            }
            if exists|t2: int|
                0 <= t2 < tags.len() && fuzzy_score((#[trigger] tags[t2])@, q) is Some {
                assert(matches@[tags_at].field@ == "tags"@);
            }
            if fuzzy_score(prompt.content@, q) is Some {
                assert(matches@[matches@.len() - 1].field@ == "content"@);
            }
        }
        (best, matches)
    }
}

proof fn lemma_tags_best_nonneg(q: Seq<char>, tags: Seq<String>)
    ensures
        spec_tags_best(q, tags) >= 0,
    decreases tags.len(),
{
    if tags.len() > 0 {
        lemma_tags_best_nonneg(q, tags.drop_last());
    }
}

proof fn lemma_tags_best_step(q: Seq<char>, tags: Seq<String>, i: int)
    requires
        0 <= i < tags.len(),
    ensures
        spec_tags_best(q, tags.take(i + 1)) == (if spec_field_score(
            q,
            tags[i]@,
            TAG_WEIGHT as int,
        ) > spec_tags_best(q, tags.take(i)) {
            spec_field_score(q, tags[i]@, TAG_WEIGHT as int)
        } else {
            spec_tags_best(q, tags.take(i))
        }),
{
    assert(tags.take(i + 1).drop_last() =~= tags.take(i));
    assert(tags.take(i + 1).last() == tags[i]);
}


/// What every reported hit satisfies: a genuine, positive score and an
/// honest match list.
pub open spec fn spec_hit_ok(q: Seq<char>, q_bytes: int, sr: SearchResult) -> bool {
    &&& sr.score as int == spec_best_score(q, sr.prompt)
    &&& sr.score > 0
    &&& spec_matches_ok(q, q_bytes, sr.prompt, sr.matches@)
}

/// Scores and match lists see only a prompt's field values, so an
/// equal-valued copy scores the same and reports the same matches.
pub proof fn lemma_matches_ok_like(
    q: Seq<char>,
    q_bytes: int,
    a: Prompt,
    b: Prompt,
    ms: Seq<MatchRange>,
)
    requires
        prompt_like(a, b),
        spec_matches_ok(q, q_bytes, a, ms),
    ensures
        spec_matches_ok(q, q_bytes, b, ms),
{
}

proof fn lemma_to_multiset_insert<A>(s: Seq<A>, pos: int, x: A)
    requires
        0 <= pos <= s.len(),
    ensures
        s.insert(pos, x).to_multiset() =~= s.to_multiset().insert(x),
{
    broadcast use vstd::seq_lib::group_to_multiset_ensures;

    let a = s.take(pos);
    let b = s.skip(pos);
    assert(s =~= a + b);
    assert(s.insert(pos, x) =~= a.push(x) + b);
    vstd::seq_lib::lemma_multiset_commutative(a.push(x), b);
    vstd::seq_lib::lemma_multiset_commutative(a, b);
}

proof fn lemma_to_multiset_drop_first<A>(s: Seq<A>)
    requires
        s.len() > 0,
    ensures
        s.to_multiset() =~= s.skip(1).to_multiset().insert(s[0]),
{
    broadcast use vstd::seq_lib::group_to_multiset_ensures;

    assert(s =~= seq![s[0]] + s.skip(1));
    assert(seq![s[0]] =~= Seq::<A>::empty().push(s[0]));
    vstd::seq_lib::lemma_multiset_commutative(seq![s[0]], s.skip(1));
}

/// Order hits by descending score, keeping exactly the given hits.
fn sort_results_desc(results: Vec<SearchResult>) -> (r: Vec<SearchResult>)
    ensures
        r@.to_multiset() == results@.to_multiset(),
        r@.len() == results@.len(),
        forall|k1: int, k2: int| 0 <= k1 <= k2 < r@.len() ==> r@[k1].score >= r@[k2].score,
{
    let ghost all = results@;
    let mut rest = results;
    let mut out: Vec<SearchResult> = Vec::new();
    proof {
        broadcast use vstd::seq_lib::group_to_multiset_ensures;
        broadcast use vstd::multiset::lemma_multiset_empty_len;

        assert(out@.to_multiset().len() == 0);
        assert(out@.to_multiset() =~= Multiset::<SearchResult>::empty());
        assert(out@.to_multiset().add(rest@.to_multiset()) =~= all.to_multiset());
    }
    while rest.len() > 0
        invariant
            out@.len() + rest@.len() == all.len(),
            out@.to_multiset().add(rest@.to_multiset()) =~= all.to_multiset(),
            forall|k1: int, k2: int| 0 <= k1 <= k2 < out@.len() ==> out@[k1].score
                >= out@[k2].score,
        decreases rest@.len(),
    {
        let ghost rest0 = rest@;
        let x = rest.remove(0);
        proof {
            lemma_to_multiset_drop_first(rest0);
            assert(rest@ =~= rest0.skip(1));
        }
        let mut pos: usize = 0;
        while pos < out.len() && out[pos].score >= x.score
            invariant
                0 <= pos <= out@.len(),
                forall|j: int| 0 <= j < pos ==> out@[j].score >= x.score,
            decreases out@.len() - pos,
        {
            pos = pos + 1;
        }
        let ghost out0 = out@;
        out.insert(pos, x);
        proof {
            lemma_to_multiset_insert(out0, pos as int, x);
            assert(out@ == out0.insert(pos as int, x));
            assert forall|k1: int, k2: int|
                0 <= k1 <= k2 < out@.len() implies out@[k1].score >= out@[k2].score by {
                if k1 < pos {
                    assert(out@[k1] == out0[k1]);
                } else if k1 == pos {
                    assert(out@[k1] == x);
                } else {
                    assert(out@[k1] == out0[k1 - 1]);
                }
                if k2 < pos {
                    assert(out@[k2] == out0[k2]);
                } else if k2 == pos {
                    assert(out@[k2] == x);
                } else {
                    assert(out@[k2] == out0[k2 - 1]);
                }
            }
        }
    }
    proof {
        broadcast use vstd::seq_lib::group_to_multiset_ensures;
        broadcast use vstd::multiset::lemma_multiset_empty_len;

        assert(rest@.to_multiset().len() == 0);
        assert(rest@.to_multiset() =~= Multiset::<SearchResult>::empty());
        assert(out@.to_multiset().add(rest@.to_multiset()) =~= out@.to_multiset());
    }
    out
}

impl FuzzySearchService {
    /// Search prompts with the given query.
    ///
    /// Exactly the prompts with a positive score are reported — one hit
    /// per such prompt, carrying an equal-valued copy of it, its genuine
    /// score and an honest match list — ordered by descending score.
    #[verifier::rlimit(60)]
    pub fn search(&self, query: &str, prompts: &[Prompt]) -> (r: Vec<SearchResult>)
        ensures
            forall|k: int|
                0 <= k < r@.len() ==> spec_hit_ok(
                    query@,
                    query.spec_bytes().len() as usize as int,
                    #[trigger] r@[k],
                ),
            forall|k1: int, k2: int| 0 <= k1 <= k2 < r@.len() ==> r@[k1].score >= r@[k2].score,
            r@.len() == prompts@.filter(|p: Prompt| spec_best_score(query@, p) > 0).len(),
            forall|i: int|
                #![trigger prompts@[i]]
                0 <= i < prompts@.len() && spec_best_score(query@, prompts@[i]) > 0
                    ==> exists|k: int|
                    0 <= k < r@.len() && prompt_like((#[trigger] r@[k]).prompt, prompts@[i]),
    {
        let ghost q = query@;
        let ghost q_bytes = query.spec_bytes().len() as usize as int;
        let ghost pred = |p: Prompt| spec_best_score(query@, p) > 0;
        let mut results: Vec<SearchResult> = Vec::new();
        let mut i: usize = 0;
        proof {
            assert(prompts@.take(0).filter(pred) =~= Seq::<Prompt>::empty());
        }
        while i < prompts.len()
            invariant
                0 <= i <= prompts@.len(),
                q == query@,
                q_bytes == query.spec_bytes().len() as usize as int,
                pred == (|p: Prompt| spec_best_score(query@, p) > 0),
                results@.len() == prompts@.take(i as int).filter(pred).len(),
                forall|k: int|
                    0 <= k < results@.len() ==> spec_hit_ok(q, q_bytes, #[trigger] results@[k]),
                forall|j: int|
                    #![trigger prompts@[j]]
                    0 <= j < i && spec_best_score(q, prompts@[j]) > 0 ==> exists|k: int|
                        0 <= k < results@.len() && prompt_like(
                            (#[trigger] results@[k]).prompt,
                            prompts@[j],
                        ),
            decreases prompts@.len() - i,
        {
            let ghost r0 = results@;
            let p = &prompts[i];
            let (score, ms) = self.score_prompt(query, p);
            if score > 0 {
                let copy = p.clone();
                proof {
                    lemma_best_score_like(q, *p, copy);
                    lemma_matches_ok_like(q, q_bytes, *p, copy, ms@);
                }
                results.push(SearchResult { prompt: copy, score, matches: ms });
            }
            proof {
                lemma_filter_take_step_prompts(prompts@, pred, i as int);
                assert forall|k: int|
                    0 <= k < results@.len() implies spec_hit_ok(
                    q,
                    q_bytes,
                    #[trigger] results@[k],
                ) by {
                    if k < r0.len() {
                        assert(results@[k] == r0[k]);
                    }
                }
                assert forall|j: int|
                    #![trigger prompts@[j]]
                    0 <= j < i + 1 && spec_best_score(q, prompts@[j]) > 0 implies exists|k: int|
                        0 <= k < results@.len() && prompt_like(
                            (#[trigger] results@[k]).prompt,
                            prompts@[j],
                        ) by {
                    if j == i {
                        assert(results@[results@.len() - 1].prompt == results@[results@.len()
                            - 1].prompt);
                        assert(prompt_like(results@[results@.len() - 1].prompt, prompts@[j]));
                    } else {
                        let k = choose|k: int|
                            0 <= k < r0.len() && prompt_like(
                                (#[trigger] r0[k]).prompt,
                                prompts@[j],
                            );
                        assert(results@[k] == r0[k]);
                        assert(prompt_like(results@[k].prompt, prompts@[j]));
                    }
                }
            }
            i = i + 1;
        }
        proof {
            assert(prompts@.take(prompts@.len() as int) =~= prompts@);
        }
        let ghost unsorted = results@;
        let sorted = sort_results_desc(results);
        proof {
            broadcast use vstd::seq_lib::group_to_multiset_ensures;

            assert forall|k: int|
                0 <= k < sorted@.len() implies spec_hit_ok(q, q_bytes, #[trigger] sorted@[k]) by {
                assert(sorted@.to_multiset().count(sorted@[k]) > 0);
                assert(unsorted.to_multiset().count(sorted@[k]) > 0);
                assert(unsorted.contains(sorted@[k]));
                let j = choose|j: int| 0 <= j < unsorted.len() && unsorted[j] == sorted@[k];
                assert(spec_hit_ok(q, q_bytes, unsorted[j]));
            }
            assert forall|i2: int|
                #![trigger prompts@[i2]]
                0 <= i2 < prompts@.len() && spec_best_score(q, prompts@[i2]) > 0
                    implies exists|k: int|
                    0 <= k < sorted@.len() && prompt_like(
                        (#[trigger] sorted@[k]).prompt,
                        prompts@[i2],
                    ) by {
                let k0 = choose|k0: int|
                    0 <= k0 < unsorted.len() && prompt_like(
                        (#[trigger] unsorted[k0]).prompt,
                        prompts@[i2],
                    );
                assert(unsorted.to_multiset().count(unsorted[k0]) > 0);
                assert(sorted@.to_multiset().count(unsorted[k0]) > 0);
                assert(sorted@.contains(unsorted[k0]));
                let k = choose|k: int| 0 <= k < sorted@.len() && sorted@[k] == unsorted[k0];
                assert(prompt_like(sorted@[k].prompt, prompts@[i2]));
            }
        }
        sorted
    }
}

proof fn lemma_filter_take_step_prompts(s: Seq<Prompt>, pred: spec_fn(Prompt) -> bool, i: int)
    requires
        0 <= i < s.len(),
    ensures
        s.take(i + 1).filter(pred) == (if pred(s[i]) {
            s.take(i).filter(pred).push(s[i])
        } else {
            s.take(i).filter(pred)
        }),
{
    assert(s.take(i + 1).drop_last() =~= s.take(i));
    assert(s.take(i + 1).last() == s[i]);
    reveal_with_fuel(Seq::filter, 2);
}

impl SearchService for FuzzySearchService {
    fn search(&self, query: &str, prompts: &[Prompt]) -> Vec<SearchResult> {
        FuzzySearchService::search(self, query, prompts)
    }
}

/// Wrap a whole prompt list as search hits, in order, as an empty query
/// reports it: a fixed score and no match ranges.
pub fn all_prompts_as_results(prompts: Vec<Prompt>) -> (r: Vec<SearchResult>)
    ensures
        r@.len() == prompts@.len(),
        forall|k: int|
            0 <= k < r@.len() ==> (#[trigger] r@[k]).prompt == prompts@[k] && r@[k].score == 100
                && r@[k].matches@.len() == 0,
{
    let n = prompts.len();
    let ghost all = prompts@;
    let mut rest = prompts;
    let mut r: Vec<SearchResult> = Vec::new();
    let mut i: usize = 0;
    while i < n
        invariant
            0 <= i <= n,
            n == all.len(),
            rest@ == all.skip(i as int),
            r@.len() == i,
            forall|k: int|
                0 <= k < i ==> (#[trigger] r@[k]).prompt == all[k] && r@[k].score == 100
                    && r@[k].matches@.len() == 0,
        decreases n - i,
    {
        let p = rest.remove(0);
        proof {
            assert(all.skip(i as int).skip(1) =~= all.skip(i as int + 1));
            assert(p == all[i as int]);
        }
        r.push(SearchResult { prompt: p, score: 100, matches: Vec::new() });
        i = i + 1;
    }
    r
}

} // verus!
