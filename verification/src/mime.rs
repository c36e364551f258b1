//! MIME texts: normalization to a bare `type/subtype` and the table that
//! maps a normalized MIME type to a media type.

use crate::chars::chars_eq;
use crate::chars::chars_first_index_of;
use crate::chars::first_index_of;
use crate::chars::subvec;
use crate::media_type::MediaType;
use vstd::prelude::*;

verus! {

/// `c` is one of the ASCII whitespace characters that may surround a MIME
/// text taken from a header or a data URL.
pub open spec fn is_mime_space(c: char) -> bool {
    c == ' ' || c == '\t' || c == '\n' || c == '\r'
}

/// `s` without its leading whitespace.
pub open spec fn trim_start(s: Seq<char>) -> Seq<char>
    decreases s.len(),
{
    if s.len() > 0 && is_mime_space(s[0]) {
        trim_start(s.drop_first())
    } else {
        s
    }
}

/// `s` without its trailing whitespace.
pub open spec fn trim_end(s: Seq<char>) -> Seq<char>
    decreases s.len(),
{
    if s.len() > 0 && is_mime_space(s.last()) {
        trim_end(s.drop_last())
    } else {
        s
    }
}

/// `s` without surrounding whitespace.
pub open spec fn trim(s: Seq<char>) -> Seq<char> {
    trim_end(trim_start(s))
}

/// `c` with an ASCII capital letter lowered; any other character unchanged.
pub open spec fn lower_char(c: char) -> char {
    if 'A' <= c && c <= 'Z' {
        ((c as int) + 32) as char
    } else {
        c
    }
}

/// `s` with its ASCII capital letters lowered.
pub open spec fn lower(s: Seq<char>) -> Seq<char> {
    s.map_values(|c: char| lower_char(c))
}

/// The normalized `type/subtype` of a MIME text: parameters (everything
/// from the first `;` on) dropped, surrounding whitespace removed, ASCII
/// capital letters lowered.
pub open spec fn mime_essence(s: Seq<char>) -> Seq<char> {
    let base = match first_index_of(s, ';') {
        Some(i) => s.take(i),
        None => s,
    };
    lower(trim(base))
}

/// The MIME table: the media type denoted by a normalized `type/subtype`.
/// Anything outside the table, the generic fallback types included, maps to
/// `Unknown`.
pub open spec fn mime_table(essence: Seq<char>) -> MediaType {
    if essence == "application/typescript"@ || essence == "text/typescript"@
        || essence == "video/mp2t"@ {
        MediaType::TypeScript
    } else if essence == "application/javascript"@ || essence == "text/javascript"@
        || essence == "application/ecmascript"@ || essence == "text/ecmascript"@ {
        MediaType::JavaScript
    } else if essence == "text/jsx"@ {
        MediaType::Jsx
    } else if essence == "text/tsx"@ {
        MediaType::Tsx
    } else if essence == "application/json"@ || essence == "text/json"@ {
        MediaType::Json
    } else if essence == "application/wasm"@ {
        MediaType::Wasm
    } else {
        MediaType::Unknown
    }
}

/// The media type declared by a raw MIME text, after normalization.
pub open spec fn media_type_of_mime(s: Seq<char>) -> MediaType {
    mime_table(mime_essence(s))
}

/// Whitespace-only prefixes do not change `trim_start`.
proof fn lemma_trim_start_skip(s: Seq<char>, k: int)
    requires
        0 <= k <= s.len(),
        forall|j: int| 0 <= j < k ==> is_mime_space(#[trigger] s[j]),
    ensures
        trim_start(s) == trim_start(s.skip(k)),
    decreases k,
{
    if k == 0 {
        assert(s.skip(0) =~= s);
    } else {
        assert(trim_start(s) == trim_start(s.drop_first()));
        assert(s.drop_first() =~= s.skip(1));
        lemma_trim_start_skip(s.skip(1), k - 1);
        assert(s.skip(1).skip(k - 1) =~= s.skip(k));
    }
}

/// Whitespace-only suffixes do not change `trim_end`.
proof fn lemma_trim_end_take(s: Seq<char>, k: int)
    requires
        0 <= k <= s.len(),
        forall|j: int| k <= j < s.len() ==> is_mime_space(#[trigger] s[j]),
    ensures
        trim_end(s) == trim_end(s.take(k)),
    decreases s.len() - k,
{
    if k == s.len() {
        assert(s.take(k) =~= s);
    } else {
        assert(trim_end(s) == trim_end(s.drop_last()));
        assert(s.drop_last() =~= s.take(s.len() - 1));
        lemma_trim_end_take(s.take(s.len() - 1), k);
        assert(s.take(s.len() - 1).take(k) =~= s.take(k));
    }
}

/// `c` is one of the whitespace characters of `is_mime_space`.
fn is_space(c: char) -> (r: bool)
    ensures
        r == is_mime_space(c),
{
    c == ' ' || c == '\t' || c == '\n' || c == '\r'
}

/// The characters of `v` without surrounding whitespace.
#[verifier::loop_isolation(false)]
fn trim_chars(v: &Vec<char>) -> (r: Vec<char>)
    ensures
        r@ == trim(v@),
{
    let mut start: usize = 0;
    while start < v.len() && is_space(v[start])
        invariant
            start <= v@.len(),
            forall|j: int| 0 <= j < start ==> is_mime_space(#[trigger] v@[j]),
        decreases v@.len() - start,
    {
        start += 1;
    }
    proof {
        lemma_trim_start_skip(v@, start as int);
        assert(trim_start(v@.skip(start as int)) == v@.skip(start as int));
    }
    let mut end: usize = v.len();
    while end > start && is_space(v[end - 1])
        invariant
            start <= end <= v@.len(),
            forall|j: int| end <= j < v@.len() ==> is_mime_space(#[trigger] v@[j]),
        decreases end,
    {
        end -= 1;
    }
    proof {
        assert forall|j: int|
            end - start <= j < v@.skip(start as int).len() implies is_mime_space(
            #[trigger] v@.skip(start as int)[j],
        ) by {
            assert(v@.skip(start as int)[j] == v@[j + start]);
        }
        lemma_trim_end_take(v@.skip(start as int), end - start);
        if end > start {
            assert(!is_mime_space(v@.skip(start as int).take(end - start).last()));
        }
        assert(trim_end(v@.skip(start as int).take(end - start))
            == v@.skip(start as int).take(end - start));
        assert(v@.skip(start as int).take(end - start)
            =~= v@.subrange(start as int, end as int));
    }
    subvec(v, start, end)
}

/// `c` with an ASCII capital letter lowered.
fn lower_char_exec(c: char) -> (r: char)
    ensures
        r == lower_char(c),
{
    if c >= 'A' && c <= 'Z' {
        (((c as u8) + 32) as char)
    } else {
        c
    }
}

/// The characters of `v` with ASCII capital letters lowered.
#[verifier::loop_isolation(false)]
fn lower_chars(v: &Vec<char>) -> (r: Vec<char>)
    ensures
        r@ == lower(v@),
{
    let mut r: Vec<char> = Vec::new();
    let mut i: usize = 0;
    while i < v.len()
        invariant
            i <= v@.len(),
            r@ == lower(v@.take(i as int)),
        decreases v@.len() - i,
    {
        r.push(lower_char_exec(v[i]));
        proof {
            assert(r@ =~= lower(v@.take(i + 1)));
        }
        i += 1;
    }
    proof {
        assert(v@.take(v@.len() as int) =~= v@);
    }
    r
}

/// The media type declared by the raw MIME text in `v`: the table applied
/// to the normalized `type/subtype`.
pub fn media_type_from_mime(v: &Vec<char>) -> (r: MediaType)
    ensures
        r == media_type_of_mime(v@),
{
    proof {
        crate::chars::lemma_first_index_of(v@, ';');
    }
    let base = match chars_first_index_of(v, ';') {
        Some(i) => {
            proof {
                assert(v@.subrange(0, i as int) =~= v@.take(i as int));
            }
            subvec(v, 0, i)
        },
        None => {
            proof {
                assert(v@.subrange(0, v@.len() as int) =~= v@);
            }
            subvec(v, 0, v.len())
        },
    };
    let essence = lower_chars(&trim_chars(&base));
    if chars_eq(&essence, "application/typescript")
        || chars_eq(&essence, "text/typescript")
        || chars_eq(&essence, "video/mp2t") {
        MediaType::TypeScript
    } else if chars_eq(&essence, "application/javascript")
        || chars_eq(&essence, "text/javascript")
        || chars_eq(&essence, "application/ecmascript")
        || chars_eq(&essence, "text/ecmascript") {
        MediaType::JavaScript
    } else if chars_eq(&essence, "text/jsx") {
        MediaType::Jsx
    } else if chars_eq(&essence, "text/tsx") {
        MediaType::Tsx
    } else if chars_eq(&essence, "application/json")
        || chars_eq(&essence, "text/json") {
        MediaType::Json
    } else if chars_eq(&essence, "application/wasm") {
        MediaType::Wasm
    } else {
        MediaType::Unknown
    }
}

} // verus!
