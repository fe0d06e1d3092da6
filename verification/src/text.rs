//! Verified text utilities: blankness, trimming, case-insensitive
//! comparison, substring search, and file-name sanitizing.
//!
//! Whitespace is the Unicode `White_Space` set, as `str::trim` and
//! `char::is_whitespace` use it.  The case-insensitive comparison covers
//! the ASCII letters, as `eq_ignore_ascii_case` does; file-name
//! sanitizing keeps Unicode alphanumerics and lowercases with the
//! Unicode mapping.

use vstd::prelude::*;

verus! {

/// The Unicode `White_Space` characters, as `char::is_whitespace`
/// recognizes them.
pub open spec fn is_space_char(c: char) -> bool {
    let u = c as u32;
    ||| (0x09 <= u && u <= 0x0D)
    ||| u == 0x20
    ||| u == 0x85
    ||| u == 0xA0
    ||| u == 0x1680
    ||| (0x2000 <= u && u <= 0x200A)
    ||| u == 0x2028
    ||| u == 0x2029
    ||| u == 0x202F
    ||| u == 0x205F
    ||| u == 0x3000
}

/// Decide whether a character is whitespace.
pub fn is_space(c: char) -> (b: bool)
    ensures
        b == is_space_char(c),
{
    let u = c as u32;
    (0x09 <= u && u <= 0x0D) || u == 0x20 || u == 0x85 || u == 0xA0 || u == 0x1680 || (0x2000
        <= u && u <= 0x200A) || u == 0x2028 || u == 0x2029 || u == 0x202F || u == 0x205F || u
        == 0x3000
}

/// Whether a string consists of whitespace only (an empty string is blank).
pub open spec fn spec_is_blank(s: Seq<char>) -> bool {
    forall|i: int| 0 <= i < s.len() ==> is_space_char(#[trigger] s[i])
}

/// Decide blankness.
pub fn is_blank(s: &str) -> (b: bool)
    ensures
        b == spec_is_blank(s@),
{
    let n = s.unicode_len();
    let mut i: usize = 0;
    while i < n
        invariant
            0 <= i <= n,
            n == s@.len(),
            forall|j: int| 0 <= j < i ==> is_space_char(#[trigger] s@[j]),
        decreases n - i,
    {
        let c = s.get_char(i);
        if !is_space(c) {
            return false;
        }
        i = i + 1;
    }
    true
}

/// The characters of a string, in order.
pub fn chars_of(s: &str) -> (v: Vec<char>)
    ensures
        v@ == s@,
{
    let n = s.unicode_len();
    let mut v: Vec<char> = Vec::new();
    let mut i: usize = 0;
    while i < n
        invariant
            0 <= i <= n,
            n == s@.len(),
            v@ == s@.take(i as int),
        decreases n - i,
    {
        v.push(s.get_char(i));
        proof {
            assert(v@ =~= s@.take(i as int + 1));
        }
        i = i + 1;
    }
    proof {
        assert(s@.take(n as int) =~= s@);
    }
    v
}

/// Relies on `core::iter::Iterator::collect`: the collected `String` holds
/// exactly the characters of the vector, in order.
#[verifier::external_body]
pub fn string_from_chars(v: &Vec<char>) -> (r: String)
    ensures
        r@ == v@,
{
    v.iter().collect()
}

/// A string with its leading whitespace removed.
pub open spec fn spec_trim_front(s: Seq<char>) -> Seq<char>
    decreases s.len(),
{
    if s.len() > 0 && is_space_char(s[0]) {
        spec_trim_front(s.drop_first())
    } else {
        s
    }
}

/// A string with its trailing whitespace removed.
pub open spec fn spec_trim_back(s: Seq<char>) -> Seq<char>
    decreases s.len(),
{
    if s.len() > 0 && is_space_char(s.last()) {
        spec_trim_back(s.drop_last())
    } else {
        s
    }
}

/// A string with leading and trailing whitespace removed.
pub open spec fn spec_trim(s: Seq<char>) -> Seq<char> {
    spec_trim_back(spec_trim_front(s))
}

proof fn lemma_trim_front_at(s: Seq<char>, a: int)
    requires
        0 <= a <= s.len(),
        forall|j: int| 0 <= j < a ==> is_space_char(#[trigger] s[j]),
        a < s.len() ==> !is_space_char(s[a]),
    ensures
        spec_trim_front(s) == s.subrange(a, s.len() as int),
    decreases a,
{
    if a == 0 {
        assert(s.subrange(0, s.len() as int) =~= s);
    } else {
        let t = s.drop_first();
        assert(forall|j: int| 0 <= j < a - 1 ==> is_space_char(#[trigger] t[j]));
        lemma_trim_front_at(t, a - 1);
        assert(t.subrange(a - 1, t.len() as int) =~= s.subrange(a, s.len() as int));
    }
}

proof fn lemma_trim_back_at(s: Seq<char>, b: int)
    requires
        0 <= b <= s.len(),
        forall|j: int| b <= j < s.len() ==> is_space_char(#[trigger] s[j]),
        b > 0 ==> !is_space_char(s[b - 1]),
    ensures
        spec_trim_back(s) == s.subrange(0, b),
    decreases s.len() - b,
{
    if b == s.len() {
        assert(s.subrange(0, s.len() as int) =~= s);
    } else {
        let t = s.drop_last();
        assert(forall|j: int| b <= j < t.len() ==> is_space_char(#[trigger] t[j]));
        lemma_trim_back_at(t, b);
        assert(t.subrange(0, b) =~= s.subrange(0, b));
    }
}

/// Remove leading and trailing whitespace.
pub fn trim_chars(s: &Vec<char>) -> (r: Vec<char>)
    ensures
        r@ == spec_trim(s@),
{
    let n = s.len();
    let mut a: usize = 0;
    while a < n && is_space(s[a])
        invariant
            0 <= a <= n,
            n == s@.len(),
            forall|j: int| 0 <= j < a ==> is_space_char(#[trigger] s@[j]),
        decreases n - a,
    {
        a = a + 1;
    }
    proof {
        lemma_trim_front_at(s@, a as int);
    }
    let mut b: usize = n;
    while b > a && is_space(s[b - 1])
        invariant
            a <= b <= n,
            n == s@.len(),
            forall|j: int| b <= j < n ==> is_space_char(#[trigger] s@[j]),
        decreases b,
    {
        b = b - 1;
    }
    proof {
        let front = s@.subrange(a as int, n as int);
        assert(forall|j: int|
            b - a <= j < front.len() ==> is_space_char(#[trigger] front[j]));
        assert(b > a ==> !is_space_char(front[b - a - 1]));
        lemma_trim_back_at(front, b - a);
    }
    let mut r: Vec<char> = Vec::new();
    let mut i: usize = a;
    while i < b
        invariant
            a <= i <= b <= n,
            n == s@.len(),
            r@ == s@.subrange(a as int, i as int),
        decreases b - i,
    {
        r.push(s[i]);
        proof {
            assert(r@ =~= s@.subrange(a as int, i as int + 1));
        }
        i = i + 1;
    }
    proof {
        assert(s@.subrange(a as int, b as int) =~= s@.subrange(a as int, n as int).subrange(
            0,
            b - a,
        ));
    }
    r
}

/// The code point of a character with an ASCII capital letter lowered.
pub open spec fn spec_lower_code(c: char) -> u32 {
    if 0x41 <= c as u32 && c as u32 <= 0x5A {
        (c as u32 + 32) as u32
    } else {
        c as u32
    }
}

/// Case-insensitive equality over the ASCII letters: equal lengths and
/// equal lowered code points position by position.
pub open spec fn spec_eq_ignore_ascii_case(a: Seq<char>, b: Seq<char>) -> bool {
    a.len() == b.len() && forall|i: int|
        0 <= i < a.len() ==> spec_lower_code(a[i]) == spec_lower_code(#[trigger] b[i])
}

/// Compare two strings ignoring ASCII case.
pub fn eq_ignore_ascii_case(a: &str, b: &str) -> (r: bool)
    ensures
        r == spec_eq_ignore_ascii_case(a@, b@),
{
    let na = a.unicode_len();
    let nb = b.unicode_len();
    if na != nb {
        return false;
    }
    let mut i: usize = 0;
    while i < na
        invariant
            0 <= i <= na,
            na == a@.len(),
            na == b@.len(),
            forall|j: int|
                0 <= j < i ==> spec_lower_code(a@[j]) == spec_lower_code(#[trigger] b@[j]),
        decreases na - i,
    {
        let ca = a.get_char(i) as u32;
        let cb = b.get_char(i) as u32;
        let la = if 0x41 <= ca && ca <= 0x5A {
            ca + 32
        } else {
            ca
        };
        let lb = if 0x41 <= cb && cb <= 0x5A {
            cb + 32
        } else {
            cb
        };
        if la != lb {
            return false;
        }
        i = i + 1;
    }
    true
}

/// Whether `pat` occurs in `s` starting at position `i`.
pub open spec fn matches_at(s: Seq<char>, pat: Seq<char>, i: int) -> bool {
    0 <= i && i + pat.len() <= s.len() && s.subrange(i, i + pat.len()) == pat
}

/// Decide whether `pat` occurs at position `i`.
pub fn check_match_at(s: &str, pat: &str, i: usize) -> (r: bool)
    requires
        i <= s@.len(),
    ensures
        r == matches_at(s@, pat@, i as int),
{
    let n = s.unicode_len();
    let m = pat.unicode_len();
    if m > n - i {
        return false;
    }
    let mut k: usize = 0;
    while k < m
        invariant
            0 <= k <= m,
            n == s@.len(),
            m == pat@.len(),
            i + m <= n,
            forall|j: int| 0 <= j < k ==> s@[i + j] == pat@[j],
        decreases m - k,
    {
        if s.get_char(i + k) != pat.get_char(k) {
            proof {
                assert(s@.subrange(i as int, i as int + m as int)[k as int] != pat@[k as int]);
            }
            return false;
        }
        k = k + 1;
    }
    proof {
        assert(s@.subrange(i as int, i as int + m as int) =~= pat@);
    }
    true
}

/// Find the first occurrence of `pat` in `s` at or after `from`.
pub fn find_pattern_from(s: &str, pat: &str, from: usize) -> (r: Option<usize>)
    requires
        from <= s@.len(),
    ensures
        match r {
            Some(i) => from <= i && matches_at(s@, pat@, i as int) && forall|j: int|
                from <= j < i ==> !matches_at(s@, pat@, j),
            None => forall|j: int| from <= j ==> !matches_at(s@, pat@, j),
        },
{
    let n = s.unicode_len();
    let mut i: usize = from;
    while i < n
        invariant
            from <= i <= n,
            n == s@.len(),
            from <= s@.len(),
            forall|j: int| from <= j < i ==> !matches_at(s@, pat@, j),
        decreases n - i,
    {
        if check_match_at(s, pat, i) {
            return Some(i);
        }
        i = i + 1;
    }
    // Positions at or past the end can only hold an empty pattern.
    if check_match_at(s, pat, n) {
        return Some(n);
    }
    proof {
        assert(forall|j: int| j > s@.len() ==> !matches_at(s@, pat@, j));
    }
    None
}

/// Whether a character counts as alphanumeric for file names, exactly as
/// `char::is_alphanumeric` decides it: alphabetic, or one of the Unicode
/// number categories.
pub uninterp spec fn is_unicode_alphanumeric(c: char) -> bool;

/// Relies on `char::is_alphanumeric`: a pure function of the character.
/// On ASCII the documentation fixes it: the letters and digits are
/// alphanumeric; dash, underscore and space are not.
#[verifier::external_body]
fn char_is_alphanumeric(c: char) -> (b: bool)
    ensures
        b == is_unicode_alphanumeric(c),
        (0x30 <= c as u32 <= 0x39) || (0x41 <= c as u32 <= 0x5A) || (0x61 <= c as u32 <= 0x7A)
            ==> b,
        c == '-' || c == '_' || c == ' ' ==> !b,
{
    c.is_alphanumeric()
}

/// The Unicode lowercase mapping of a whole string, as `str::to_lowercase`
/// computes it.
pub uninterp spec fn lower_of(s: Seq<char>) -> Seq<char>;

/// Relies on `str::to_lowercase`: the result depends on the characters
/// alone, and an empty string stays empty.
#[verifier::external_body]
fn to_lowercase_str(s: &str) -> (r: String)
    ensures
        r@ == lower_of(s@),
        s@.len() == 0 ==> r@.len() == 0,
{
    s.to_lowercase()
}

/// One character of a file name before lowercasing: alphanumerics, dash,
/// underscore and space are kept; everything else becomes a dash.
pub open spec fn spec_kept_char(c: char) -> char {
    if is_unicode_alphanumeric(c) || c == '-' || c == '_' || c == ' ' {
        c
    } else {
        '-'
    }
}

/// A string with each left-to-right non-overlapping double space replaced
/// by a single space.
pub open spec fn spec_collapse_double_spaces(s: Seq<char>) -> Seq<char>
    decreases s.len(),
{
    if s.len() >= 2 && s[0] == ' ' && s[1] == ' ' {
        seq![' '] + spec_collapse_double_spaces(s.skip(2))
    } else if s.len() >= 1 {
        seq![s[0]] + spec_collapse_double_spaces(s.skip(1))
    } else {
        Seq::empty()
    }
}

/// A sanitized file name: map each character, collapse double spaces,
/// trim, lowercase, and turn the remaining spaces into dashes.
pub open spec fn spec_sanitize_filename(s: Seq<char>) -> Seq<char> {
    lower_of(
        spec_trim(spec_collapse_double_spaces(s.map_values(|c: char| spec_kept_char(c)))),
    ).map_values(|c: char| if c == ' ' { '-' } else { c })
}

fn sanitize_map(s: &Vec<char>) -> (r: Vec<char>)
    ensures
        r@ == s@.map_values(|c: char| spec_kept_char(c)),
{
    let mut r: Vec<char> = Vec::new();
    let mut i: usize = 0;
    while i < s.len()
        invariant
            0 <= i <= s@.len(),
            r@ == s@.take(i as int).map_values(|c: char| spec_kept_char(c)),
        decreases s@.len() - i,
    {
        let c = s[i];
        let mapped: char = if char_is_alphanumeric(c) || c == '-' || c == '_' || c == ' ' {
            c
        } else {
            '-'
        };
        r.push(mapped);
        proof {
            assert(r@ =~= s@.take(i as int + 1).map_values(|c: char| spec_kept_char(c)));
        }
        i = i + 1;
    }
    proof {
        assert(s@.take(s@.len() as int) =~= s@);
    }
    r
}

fn collapse_double_spaces(s: &Vec<char>) -> (r: Vec<char>)
    ensures
        r@ == spec_collapse_double_spaces(s@),
{
    let mut r: Vec<char> = Vec::new();
    let mut i: usize = 0;
    proof {
        assert(s@.skip(0) =~= s@);
        assert(Seq::<char>::empty() + spec_collapse_double_spaces(s@)
            =~= spec_collapse_double_spaces(s@));
    }
    while i < s.len()
        invariant
            0 <= i <= s@.len(),
            spec_collapse_double_spaces(s@) == r@ + spec_collapse_double_spaces(
                s@.skip(i as int),
            ),
        decreases s@.len() - i,
    {
        let ghost pre = r@;
        let ghost rest = s@.skip(i as int);
        if i + 1 < s.len() && s[i] == ' ' && s[i + 1] == ' ' {
            r.push(' ');
            proof {
                assert(rest.skip(2) =~= s@.skip(i as int + 2));
                assert(spec_collapse_double_spaces(rest) == seq![' ']
                    + spec_collapse_double_spaces(rest.skip(2)));
                assert(pre + spec_collapse_double_spaces(rest) =~= r@
                    + spec_collapse_double_spaces(s@.skip(i as int + 2)));
            }
            i = i + 2;
        } else {
            r.push(s[i]);
            proof {
                assert(rest.skip(1) =~= s@.skip(i as int + 1));
                assert(rest[0] == s@[i as int]);
                assert(spec_collapse_double_spaces(rest) == seq![rest[0]]
                    + spec_collapse_double_spaces(rest.skip(1)));
                assert(pre + spec_collapse_double_spaces(rest) =~= r@
                    + spec_collapse_double_spaces(s@.skip(i as int + 1)));
            }
            i = i + 1;
        }
    }
    proof {
        assert(s@.skip(s@.len() as int) =~= Seq::<char>::empty());
        assert(r@ + spec_collapse_double_spaces(Seq::<char>::empty()) =~= r@);
    }
    r
}

fn spaces_to_dashes(s: &Vec<char>) -> (r: Vec<char>)
    ensures
        r@ == s@.map_values(|c: char| if c == ' ' { '-' } else { c }),
{
    let mut r: Vec<char> = Vec::new();
    let mut i: usize = 0;
    while i < s.len()
        invariant
            0 <= i <= s@.len(),
            r@ == s@.take(i as int).map_values(|c: char| if c == ' ' { '-' } else { c }),
        decreases s@.len() - i,
    {
        let c = s[i];
        r.push(if c == ' ' { '-' } else { c });
        proof {
            assert(r@ =~= s@.take(i as int + 1).map_values(
                |c: char| if c == ' ' { '-' } else { c },
            ));
        }
        i = i + 1;
    }
    proof {
        assert(s@.take(s@.len() as int) =~= s@);
    }
    r
}

/// Sanitize a string for use as a file name.
pub fn sanitize_filename(name: &str) -> (r: String)
    ensures
        r@ == spec_sanitize_filename(name@),
{
    let cs = chars_of(name);
    let mapped = sanitize_map(&cs);
    let collapsed = collapse_double_spaces(&mapped);
    let trimmed = trim_chars(&collapsed);
    let lowered = to_lowercase_str(string_from_chars(&trimmed).as_str());
    let dashed = spaces_to_dashes(&chars_of(lowered.as_str()));
    string_from_chars(&dashed)
}

} // verus!
