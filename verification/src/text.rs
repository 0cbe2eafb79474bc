//! Character-level text utilities: whitespace trimming, substring search,
//! and ASCII-case-insensitive comparison, each specified over `Seq<char>`.

use vstd::prelude::*;

verus! {

/// Characters with the Unicode `White_Space` property: the set that
/// `str::trim` removes from either end of a string.
pub open spec fn is_space_char(c: char) -> bool {
    ||| c == '\u{0009}'
    ||| c == '\u{000A}'
    ||| c == '\u{000B}'
    ||| c == '\u{000C}'
    ||| c == '\u{000D}'
    ||| c == ' '
    ||| c == '\u{0085}'
    ||| c == '\u{00A0}'
    ||| c == '\u{1680}'
    ||| (0x2000 <= c as u32 && c as u32 <= 0x200A)
    ||| c == '\u{2028}'
    ||| c == '\u{2029}'
    ||| c == '\u{202F}'
    ||| c == '\u{205F}'
    ||| c == '\u{3000}'
}

/// Decides `is_space_char`.
pub fn is_space(c: char) -> (r: bool)
    ensures
        r == is_space_char(c),
{
    let u = c as u32;
    c == '\u{0009}' || c == '\u{000A}' || c == '\u{000B}' || c == '\u{000C}' || c == '\u{000D}'
        || c == ' ' || c == '\u{0085}' || c == '\u{00A0}' || c == '\u{1680}'
        || (0x2000 <= u && u <= 0x200A) || c == '\u{2028}' || c == '\u{2029}' || c == '\u{202F}'
        || c == '\u{205F}' || c == '\u{3000}'
}

/// The sequence with all leading whitespace removed.
pub open spec fn trim_start_spec(s: Seq<char>) -> Seq<char>
    decreases s.len(),
{
    if s.len() > 0 && is_space_char(s[0]) {
        trim_start_spec(s.drop_first())
    } else {
        s
    }
}

/// The sequence with all trailing whitespace removed.
pub open spec fn trim_end_spec(s: Seq<char>) -> Seq<char>
    decreases s.len(),
{
    if s.len() > 0 && is_space_char(s.last()) {
        trim_end_spec(s.drop_last())
    } else {
        s
    }
}

/// The sequence with whitespace removed from both ends, as `str::trim`
/// leaves it.
pub open spec fn trim_spec(s: Seq<char>) -> Seq<char> {
    trim_end_spec(trim_start_spec(s))
}

proof fn lemma_trim_start_skip(s: Seq<char>, i: int)
    requires
        0 <= i <= s.len(),
        forall|j: int| 0 <= j < i ==> is_space_char(s[j]),
        i < s.len() ==> !is_space_char(s[i]),
    ensures
        trim_start_spec(s) =~= s.subrange(i, s.len() as int),
    decreases i,
{
    if i == 0 {
        assert(s.subrange(0, s.len() as int) =~= s);
    } else {
        assert(is_space_char(s[0]));
        lemma_trim_start_skip(s.drop_first(), i - 1);
        assert(s.drop_first().subrange(i - 1, s.drop_first().len() as int) =~= s.subrange(
            i,
            s.len() as int,
        ));
    }
}

proof fn lemma_trim_end_skip(s: Seq<char>, i: int)
    requires
        0 <= i <= s.len(),
        forall|j: int| i <= j < s.len() ==> is_space_char(s[j]),
        i > 0 ==> !is_space_char(s[i - 1]),
    ensures
        trim_end_spec(s) =~= s.subrange(0, i),
    decreases s.len() - i,
{
    if i == s.len() {
        assert(s.subrange(0, s.len() as int) =~= s);
    } else {
        assert(is_space_char(s.last()));
        lemma_trim_end_skip(s.drop_last(), i);
        assert(s.drop_last().subrange(0, i) =~= s.subrange(0, i));
    }
}

/// Removes leading and trailing whitespace, as `str::trim` does.
pub fn trim_str<'a>(s: &'a str) -> (r: &'a str)
    ensures
        r@ == trim_spec(s@),
{
    let n = s.unicode_len();
    let mut lo: usize = 0;
    while lo < n && is_space(s.get_char(lo))
        invariant
            n == s@.len(),
            0 <= lo <= n,
            forall|j: int| 0 <= j < lo ==> is_space_char(s@[j]),
        decreases n - lo,
    {
        lo = lo + 1;
    }
    let mut hi: usize = n;
    while hi > lo && is_space(s.get_char(hi - 1))
        invariant
            n == s@.len(),
            0 <= lo <= hi <= n,
            forall|j: int| hi <= j < n ==> is_space_char(s@[j]),
        decreases hi,
    {
        hi = hi - 1;
    }
    let r = s.substring_char(lo, hi);
    proof {
        lemma_trim_start_skip(s@, lo as int);
        let t = s@.subrange(lo as int, n as int);
        lemma_trim_end_skip(t, hi - lo);
        assert(t.subrange(0, hi - lo) =~= s@.subrange(lo as int, hi as int));
    }
    r
}

/// The pattern `p` occurs in `s` starting at position `i`.
pub open spec fn is_match_at(s: Seq<char>, p: Seq<char>, i: int) -> bool {
    &&& 0 <= i
    &&& i + p.len() <= s.len()
    &&& forall|k: int| 0 <= k < p.len() ==> s[i + k] == p[k]
}

/// Position of the first occurrence of `p` in `s`, or -1 if there is none.
pub open spec fn find_spec(s: Seq<char>, p: Seq<char>) -> int
    decreases s.len(),
{
    if p.len() > s.len() {
        -1
    } else if forall|k: int| 0 <= k < p.len() ==> s[k] == p[k] {
        0
    } else {
        let r = find_spec(s.drop_first(), p);
        if r < 0 {
            -1
        } else {
            r + 1
        }
    }
}

pub proof fn lemma_find_spec_correct(s: Seq<char>, p: Seq<char>)
    ensures
        find_spec(s, p) >= 0 ==> is_match_at(s, p, find_spec(s, p)),
        forall|j: int| 0 <= j && (find_spec(s, p) < 0 || j < find_spec(s, p)) ==> !is_match_at(
            s,
            p,
            j,
        ),
    decreases s.len(),
{
    if p.len() > s.len() {
    } else if forall|k: int| 0 <= k < p.len() ==> s[k] == p[k] {
    } else {
        lemma_find_spec_correct(s.drop_first(), p);
        let r = find_spec(s.drop_first(), p);
        assert forall|j: int|
            0 <= j && (find_spec(s, p) < 0 || j < find_spec(s, p)) implies !is_match_at(
            s,
            p,
            j,
        ) by {
            if j == 0 {
                assert(!is_match_at(s, p, 0));
            } else if is_match_at(s, p, j) {
                assert forall|k: int| 0 <= k < p.len() implies s.drop_first()[j - 1 + k] == p[k] by {
                    assert(s.drop_first()[j - 1 + k] == s[j + k]);
                }
                assert(is_match_at(s.drop_first(), p, j - 1));
            }
        }
        if r >= 0 {
            assert(is_match_at(s.drop_first(), p, r));
            assert forall|k: int| 0 <= k < p.len() implies s[r + 1 + k] == p[k] by {
                assert(s.drop_first()[r + k] == s[r + 1 + k]);
            }
            assert(is_match_at(s, p, r + 1));
        }
    }
}

/// Compares `p` against `s` at offset `i`.
fn match_at(s: &str, p: &str, i: usize) -> (r: bool)
    requires
        i + p@.len() <= s@.len(),
        s@.len() <= usize::MAX,
    ensures
        r == is_match_at(s@, p@, i as int),
{
    let m = p.unicode_len();
    let mut k: usize = 0;
    while k < m
        invariant
            m == p@.len(),
            i + m <= s@.len(),
            s@.len() <= usize::MAX,
            0 <= k <= m,
            forall|t: int| 0 <= t < k ==> s@[i + t] == p@[t],
        decreases m - k,
    {
        if s.get_char(i + k) != p.get_char(k) {
            return false;
        }
        k = k + 1;
    }
    true
}

/// Position of the first occurrence of `p` in `s`, scanning left to right.
pub fn find_sub(s: &str, p: &str) -> (r: Option<usize>)
    ensures
        match r {
            Some(i) => i as int == find_spec(s@, p@),
            None => find_spec(s@, p@) < 0,
        },
{
    proof {
        lemma_find_spec_correct(s@, p@);
    }
    let n = s.unicode_len();
    let m = p.unicode_len();
    if m > n {
        proof {
            lemma_find_none(s@, p@);
        }
        return None;
    }
    let mut i: usize = 0;
    while i <= n - m
        invariant
            n == s@.len(),
            m == p@.len(),
            m <= n,
            0 <= i <= n - m + 1,
            forall|j: int| 0 <= j < i ==> !is_match_at(s@, p@, j),
        decreases n + 1 - i,
    {
        if match_at(s, p, i) {
            proof {
                lemma_find_spec_correct(s@, p@);
                lemma_find_first(s@, p@, i as int);
            }
            return Some(i);
        }
        i = i + 1;
    }
    proof {
        lemma_find_none(s@, p@);
    }
    None
}

/// If no position matches, `find_spec` is negative.
pub proof fn lemma_find_none(s: Seq<char>, p: Seq<char>)
    requires
        forall|j: int| 0 <= j ==> !is_match_at(s, p, j),
    ensures
        find_spec(s, p) < 0,
{
    lemma_find_spec_correct(s, p);
    if find_spec(s, p) >= 0 {
        assert(is_match_at(s, p, find_spec(s, p)));
    }
}

/// A match at `i` with no match before it pins `find_spec` to `i`.
pub proof fn lemma_find_first(s: Seq<char>, p: Seq<char>, i: int)
    requires
        is_match_at(s, p, i),
        forall|j: int| 0 <= j < i ==> !is_match_at(s, p, j),
    ensures
        find_spec(s, p) == i,
{
    lemma_find_spec_correct(s, p);
    let f = find_spec(s, p);
    if f < 0 {
        assert(!is_match_at(s, p, i));
    } else if f < i {
        assert(!is_match_at(s, p, f));
    } else if f > i {
        assert(!is_match_at(s, p, i));
    }
}

/// `p` is a prefix of `s`.
pub open spec fn has_prefix(s: Seq<char>, p: Seq<char>) -> bool {
    is_match_at(s, p, 0)
}

/// Decides `has_prefix`.
pub fn starts_with(s: &str, p: &str) -> (r: bool)
    ensures
        r == has_prefix(s@, p@),
{
    let n = s.unicode_len();
    let m = p.unicode_len();
    if m > n {
        return false;
    }
    match_at(s, p, 0)
}

/// ASCII upper-case letters folded to lower case; all else unchanged.
pub open spec fn lower_char(c: char) -> char {
    if 'A' as u32 <= c as u32 && c as u32 <= 'Z' as u32 {
        ((c as u32 + 32) as u8) as char
    } else {
        c
    }
}

/// A sequence folded to ASCII lower case character by character.
pub open spec fn lower_chars(s: Seq<char>) -> Seq<char> {
    s.map_values(|c: char| lower_char(c))
}

/// Folds one character, as `char::to_ascii_lowercase` does.
pub fn to_lower(c: char) -> (r: char)
    ensures
        r == lower_char(c),
{
    let u = c as u32;
    if 65 <= u && u <= 90 {
        ((u + 32) as u8) as char
    } else {
        c
    }
}

/// The two sequences are equal once both are folded to ASCII lower case.
pub open spec fn eq_ignore_case_spec(a: Seq<char>, b: Seq<char>) -> bool {
    lower_chars(a) == lower_chars(b)
}

/// Decides `eq_ignore_case_spec`, as `str::eq_ignore_ascii_case` does.
pub fn eq_ignore_case(a: &str, b: &str) -> (r: bool)
    ensures
        r == eq_ignore_case_spec(a@, b@),
{
    let n = a.unicode_len();
    if n != b.unicode_len() {
        assert(lower_chars(a@).len() != lower_chars(b@).len());
        return false;
    }
    let mut i: usize = 0;
    while i < n
        invariant
            n == a@.len(),
            n == b@.len(),
            0 <= i <= n,
            forall|j: int| 0 <= j < i ==> lower_char(a@[j]) == lower_char(b@[j]),
        decreases n - i,
    {
        if to_lower(a.get_char(i)) != to_lower(b.get_char(i)) {
            assert(lower_chars(a@)[i as int] != lower_chars(b@)[i as int]);
            return false;
        }
        i = i + 1;
    }
    assert(lower_chars(a@) =~= lower_chars(b@));
    true
}

} // verus!
