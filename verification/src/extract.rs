//! The extractor: a display title derived from an HTML body by a plain
//! substring scan, and a banner string digesting identifying response
//! headers. Pure functions, no parsing beyond the scan.

use crate::headers::Header;
use crate::headers::header_text;
use crate::headers::header_text_spec;
use crate::headers::lemma_lookup_absent;
use crate::headers::name_matches;
use crate::text::find_spec;
use crate::text::find_sub;
use crate::text::is_match_at;
use crate::text::lemma_find_first;
use crate::text::lemma_find_none;
use crate::text::lemma_find_spec_correct;
use crate::text::trim_spec;
use crate::text::trim_str;
use vstd::prelude::*;

verus! {

/// The sentinel returned when no title can be extracted.
pub open spec fn no_title_sentinel() -> Seq<char> {
    "no title"@
}

/// The title of an HTML body: the trimmed text strictly between the first
/// `<title>` and the first `</title>`, provided the opening tag starts
/// before the closing one; the sentinel otherwise. A deliberate substring
/// scan, not a parser: `<title>` with attributes is not matched, and a
/// `</title>` that precedes `<title>` yields the sentinel.
pub open spec fn title_spec(body: Seq<char>) -> Seq<char> {
    let o = find_spec(body, "<title>"@);
    let c = find_spec(body, "</title>"@);
    if 0 <= o && 0 <= c && o < c {
        trim_spec(body.subrange(o + 7, c))
    } else {
        no_title_sentinel()
    }
}

/// A `</title>` match cannot begin strictly inside a `<title>` match, so a
/// closing tag after the opening position leaves room for the whole opening
/// tag.
proof fn lemma_close_after_open(body: Seq<char>, o: int, c: int)
    requires
        is_match_at(body, "<title>"@, o),
        is_match_at(body, "</title>"@, c),
        o < c,
    ensures
        o + 7 <= c,
{
    reveal_strlit("<title>");
    reveal_strlit("</title>");
    if c < o + 7 {
        assert(body[c + 0] == "</title>"@[0]);
        assert(body[o + (c - o)] == "<title>"@[c - o]);
    }
}

/// Extracts the page title from an HTML body, per `title_spec`.
pub fn extract_title(html: &str) -> (r: String)
    ensures
        r@ == title_spec(html@),
{
    let n = html.unicode_len();
    let o = find_sub(html, "<title>");
    let c = find_sub(html, "</title>");
    match (o, c) {
        (Some(oi), Some(ci)) => {
            if oi < ci {
                proof {
                    lemma_find_spec_correct(html@, "<title>"@);
                    lemma_find_spec_correct(html@, "</title>"@);
                    lemma_close_after_open(html@, oi as int, ci as int);
                    reveal_strlit("<title>");
                    reveal_strlit("</title>");
                }
                let between = html.substring_char(oi + 7, ci);
                let trimmed = trim_str(between);
                String::from_str(trimmed)
            } else {
                String::from_str("no title")
            }
        },
        _ => String::from_str("no title"),
    }
}

/// Law: when a body holds a first `<title>` at `o` and a first `</title>`
/// at `c`, with the opening tag first, the title is the trimmed text
/// strictly between them.
pub proof fn lemma_title_extracts(body: Seq<char>, o: int, c: int)
    requires
        is_match_at(body, "<title>"@, o),
        forall|j: int| 0 <= j < o ==> !is_match_at(body, "<title>"@, j),
        is_match_at(body, "</title>"@, c),
        forall|j: int| 0 <= j < c ==> !is_match_at(body, "</title>"@, j),
        o < c,
    ensures
        title_spec(body) == trim_spec(body.subrange(o + 7, c)),
{
    lemma_find_first(body, "<title>"@, o);
    lemma_find_first(body, "</title>"@, c);
}

/// Law: a body with no `<title>`, no `</title>`, or whose first `</title>`
/// precedes its first `<title>` — a malformed document — yields the
/// sentinel, not an error.
pub proof fn lemma_title_sentinel(body: Seq<char>)
    ensures
        (forall|j: int| 0 <= j ==> !is_match_at(body, "<title>"@, j)) ==> title_spec(body)
            == no_title_sentinel(),
        (forall|j: int| 0 <= j ==> !is_match_at(body, "</title>"@, j)) ==> title_spec(body)
            == no_title_sentinel(),
        find_spec(body, "</title>"@) < find_spec(body, "<title>"@) ==> title_spec(body)
            == no_title_sentinel(),
{
    if forall|j: int| 0 <= j ==> !is_match_at(body, "<title>"@, j) {
        lemma_find_none(body, "<title>"@);
    }
    if forall|j: int| 0 <= j ==> !is_match_at(body, "</title>"@, j) {
        lemma_find_none(body, "</title>"@);
    }
}

/// The sentinel returned when no identifying header is present.
pub open spec fn unknown_sentinel() -> Seq<char> {
    "unknown"@
}

/// The banner fragments, in their fixed order: the `server` header first,
/// rendered as `Server: <value>`, then each additional identifying header
/// rendered as `<name>: <value>`, absent or non-text headers skipped.
pub open spec fn banner_parts_spec(hs: Seq<Header>) -> Seq<Seq<char>> {
    part_of(hs, "server"@, "Server: "@) + part_of(hs, "x-powered-by"@, "x-powered-by: "@)
        + part_of(hs, "x-aspnet-version"@, "x-aspnet-version: "@) + part_of(
        hs,
        "x-frame-options"@,
        "x-frame-options: "@,
    )
}

/// Zero or one banner fragments for a single header name.
pub open spec fn part_of(hs: Seq<Header>, name: Seq<char>, label: Seq<char>) -> Seq<Seq<char>> {
    match header_text_spec(hs, name) {
        Some(v) => seq![label + v],
        None => Seq::empty(),
    }
}

/// Fragments joined by a separator.
pub open spec fn join_spec(parts: Seq<Seq<char>>, sep: Seq<char>) -> Seq<char>
    decreases parts.len(),
{
    if parts.len() == 0 {
        Seq::empty()
    } else if parts.len() == 1 {
        parts[0]
    } else {
        parts[0] + sep + join_spec(parts.drop_first(), sep)
    }
}

proof fn lemma_join_push(parts: Seq<Seq<char>>, sep: Seq<char>, x: Seq<char>)
    ensures
        join_spec(parts.push(x), sep) == if parts.len() == 0 {
            x
        } else {
            join_spec(parts, sep) + sep + x
        },
    decreases parts.len(),
{
    if parts.len() == 0 {
        assert(parts.push(x)[0] == x);
    } else {
        assert(parts.push(x).drop_first() =~= parts.drop_first().push(x));
        lemma_join_push(parts.drop_first(), sep, x);
        if parts.len() == 1 {
            assert(join_spec(parts.push(x), sep) == parts[0] + sep + x);
        } else {
            assert((parts[0] + sep + (join_spec(parts.drop_first(), sep) + sep + x)) =~= ((parts[0]
                + sep + join_spec(parts.drop_first(), sep)) + sep + x));
        }
    }
}

/// The banner: the fragments joined by `" | "`, or the sentinel when no
/// identifying header was collected.
pub open spec fn banner_spec(hs: Seq<Header>) -> Seq<char> {
    let parts = banner_parts_spec(hs);
    if parts.len() == 0 {
        unknown_sentinel()
    } else {
        join_spec(parts, " | "@)
    }
}

/// Law: a header set in which no name matches `server`, `x-powered-by`,
/// `x-aspnet-version`, or `x-frame-options` — up to ASCII case — yields the
/// sentinel banner.
pub proof fn lemma_banner_unknown(hs: Seq<Header>)
    requires
        forall|i: int| 0 <= i < hs.len() ==> !name_matches(hs[i], "server"@),
        forall|i: int| 0 <= i < hs.len() ==> !name_matches(hs[i], "x-powered-by"@),
        forall|i: int| 0 <= i < hs.len() ==> !name_matches(hs[i], "x-aspnet-version"@),
        forall|i: int| 0 <= i < hs.len() ==> !name_matches(hs[i], "x-frame-options"@),
    ensures
        banner_spec(hs) == unknown_sentinel(),
{
    lemma_lookup_absent(hs, "server"@);
    lemma_lookup_absent(hs, "x-powered-by"@);
    lemma_lookup_absent(hs, "x-aspnet-version"@);
    lemma_lookup_absent(hs, "x-frame-options"@);
    assert(banner_parts_spec(hs) =~= Seq::<Seq<char>>::empty());
}

/// Appends the fragment for one header name to `parts`, if the header is
/// present with a text value.
fn push_part(parts: &mut Vec<String>, hs: &Vec<Header>, name: &str, label: &str)
    ensures
        final(parts)@.map_values(|p: String| p@) == old(parts)@.map_values(|p: String| p@)
            + part_of(hs@, name@, label@),
{
    let v = header_text(hs, name);
    match v {
        Some(v) => {
            let mut s = String::from_str(label);
            s.append(v.as_str());
            parts.push(s);
            proof {
                assert(parts@.map_values(|p: String| p@) =~= old(parts)@.map_values(|p: String| p@)
                    + part_of(hs@, name@, label@));
            }
        },
        None => {
            proof {
                assert(parts@.map_values(|p: String| p@) =~= old(parts)@.map_values(|p: String| p@)
                    + part_of(hs@, name@, label@));
            }
        },
    }
}

/// Builds the banner from a header set, per `banner_spec`.
pub fn extract_banner(hs: &Vec<Header>) -> (r: String)
    ensures
        r@ == banner_spec(hs@),
{
    let mut parts: Vec<String> = Vec::new();
    proof {
        assert(parts@.map_values(|p: String| p@) =~= Seq::<Seq<char>>::empty());
    }
    push_part(&mut parts, hs, "server", "Server: ");
    push_part(&mut parts, hs, "x-powered-by", "x-powered-by: ");
    push_part(&mut parts, hs, "x-aspnet-version", "x-aspnet-version: ");
    push_part(&mut parts, hs, "x-frame-options", "x-frame-options: ");
    proof {
        assert(parts@.map_values(|p: String| p@) =~= banner_parts_spec(hs@));
    }
    if parts.len() == 0 {
        return String::from_str("unknown");
    }
    let ghost fragments = parts@.map_values(|p: String| p@);
    let mut acc = String::from_str(parts[0].as_str());
    let mut i: usize = 1;
    while i < parts.len()
        invariant
            parts@.map_values(|p: String| p@) == fragments,
            1 <= i <= parts@.len(),
            acc@ == join_spec(fragments.take(i as int), " | "@),
        decreases parts@.len() - i,
    {
        acc.append(" | ");
        acc.append(parts[i].as_str());
        proof {
            assert(fragments.take(i as int).push(fragments[i as int]) =~= fragments.take(i as int + 1));
            lemma_join_push(fragments.take(i as int), " | "@, fragments[i as int]);
        }
        i = i + 1;
    }
    proof {
        assert(fragments.take(parts@.len() as int) =~= fragments);
    }
    acc
}

} // verus!
