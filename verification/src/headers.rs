//! The library's own model of a set of response headers: a sequence of
//! name/value pairs, looked up by ASCII-case-insensitive name, first match
//! winning. A value is either plain text or an opaque byte sequence that
//! cannot be rendered as text and is skipped wherever text is needed.

use crate::text::eq_ignore_case;
use crate::text::eq_ignore_case_spec;
use vstd::prelude::*;

verus! {

/// One response header value: plain text, or bytes that are not
/// representable as text.
pub enum HeaderValue {
    Text(String),
    Opaque,
}

/// One response header, as the application hands it in after a fetch.
pub struct Header {
    pub name: String,
    pub value: HeaderValue,
}

/// The header's name equals `name` up to ASCII case.
pub open spec fn name_matches(h: Header, name: Seq<char>) -> bool {
    eq_ignore_case_spec(h.name@, name)
}

/// The value of the first header whose name matches `name`, or `None` if no
/// name matches.
pub open spec fn lookup_spec(hs: Seq<Header>, name: Seq<char>) -> Option<HeaderValue>
    decreases hs.len(),
{
    if hs.len() == 0 {
        None
    } else if name_matches(hs[0], name) {
        Some(hs[0].value)
    } else {
        lookup_spec(hs.drop_first(), name)
    }
}

/// The text of the first header whose name matches `name`: `None` when the
/// header is absent or its first occurrence is not representable as text.
pub open spec fn header_text_spec(hs: Seq<Header>, name: Seq<char>) -> Option<Seq<char>> {
    match lookup_spec(hs, name) {
        Some(HeaderValue::Text(s)) => Some(s@),
        Some(HeaderValue::Opaque) => None,
        None => None,
    }
}

/// A header set in which no name matches `name` has no value for it.
pub proof fn lemma_lookup_absent(hs: Seq<Header>, name: Seq<char>)
    requires
        forall|i: int| 0 <= i < hs.len() ==> !name_matches(hs[i], name),
    ensures
        lookup_spec(hs, name) is None,
    decreases hs.len(),
{
    if hs.len() > 0 {
        assert(forall|i: int| 0 <= i < hs.drop_first().len() ==> hs.drop_first()[i] == hs[i + 1]);
        lemma_lookup_absent(hs.drop_first(), name);
    }
}

/// Looks up a header by name, case-insensitively, and returns the text of
/// its first occurrence.
pub fn header_text(hs: &Vec<Header>, name: &str) -> (r: Option<String>)
    ensures
        match r {
            Some(s) => header_text_spec(hs@, name@) == Some(s@),
            None => header_text_spec(hs@, name@) is None,
        },
{
    let mut i: usize = 0;
    proof {
        assert(hs@.skip(0) =~= hs@);
    }
    while i < hs.len()
        invariant
            0 <= i <= hs@.len(),
            lookup_spec(hs@, name@) == lookup_spec(hs@.skip(i as int), name@),
        decreases hs@.len() - i,
    {
        let h = &hs[i];
        proof {
            assert(hs@.skip(i as int)[0] == hs@[i as int]);
        }
        if eq_ignore_case(h.name.as_str(), name) {
            match &h.value {
                HeaderValue::Text(s) => {
                    return Some(s.clone());
                },
                HeaderValue::Opaque => {
                    return None;
                },
            }
        }
        proof {
            assert(hs@.skip(i as int).drop_first() =~= hs@.skip(i as int + 1));
        }
        i = i + 1;
    }
    None
}

} // verus!
