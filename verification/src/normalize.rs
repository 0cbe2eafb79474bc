//! The normalizer: expands one raw user input into zero, one, or two
//! fully-qualified candidate URLs. No scheme-sniffing heuristic: an input
//! without an explicit scheme is probed over both plain and TLS HTTP.

use crate::text::has_prefix;
use crate::text::starts_with;
use crate::text::trim_spec;
use crate::text::trim_str;
use vstd::prelude::*;

verus! {

/// The candidate URLs for one raw input: none for blank input, the trimmed
/// input alone when it already starts with `http://` or `https://` (exact,
/// case-sensitive prefixes), otherwise the `http://` and the `https://`
/// expansion of the trimmed input, in that order.
pub open spec fn normalize_spec(input: Seq<char>) -> Seq<Seq<char>> {
    let t = trim_spec(input);
    if t.len() == 0 {
        Seq::empty()
    } else if has_prefix(t, "http://"@) || has_prefix(t, "https://"@) {
        seq![t]
    } else {
        seq!["http://"@ + t, "https://"@ + t]
    }
}

/// Expands one raw input into its candidate URLs, per `normalize_spec`.
pub fn normalize(input: &str) -> (r: Vec<String>)
    ensures
        r.deep_view() == normalize_spec(input@),
{
    let t = trim_str(input);
    let mut r: Vec<String> = Vec::new();
    if t.unicode_len() == 0 {
        proof {
            assert(r.deep_view() =~= normalize_spec(input@));
        }
        return r;
    }
    if starts_with(t, "http://") || starts_with(t, "https://") {
        r.push(String::from_str(t));
        proof {
            assert(r.deep_view() =~= normalize_spec(input@));
        }
        return r;
    }
    let mut a = String::from_str("http://");
    a.append(t);
    let mut b = String::from_str("https://");
    b.append(t);
    r.push(a);
    r.push(b);
    proof {
        assert(r.deep_view() =~= normalize_spec(input@));
    }
    r
}

/// The three normalization cases, stated once over every input: blank
/// inputs expand to nothing, inputs with an explicit scheme stand alone,
/// and all others yield exactly the plain expansion followed by the TLS
/// expansion.
pub proof fn lemma_normalize_cases(input: Seq<char>)
    ensures
        trim_spec(input).len() == 0 ==> normalize_spec(input) == Seq::<Seq<char>>::empty(),
        (trim_spec(input).len() > 0 && (has_prefix(trim_spec(input), "http://"@) || has_prefix(
            trim_spec(input),
            "https://"@,
        ))) ==> normalize_spec(input) == seq![trim_spec(input)],
        (trim_spec(input).len() > 0 && !has_prefix(trim_spec(input), "http://"@) && !has_prefix(
            trim_spec(input),
            "https://"@,
        )) ==> normalize_spec(input) == seq![
            "http://"@ + trim_spec(input),
            "https://"@ + trim_spec(input),
        ],
{
}

} // verus!
