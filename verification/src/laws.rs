//! Laws of the classifier: the precedence rules stated and proved once,
//! over all inputs.

use crate::chars::last_index_of;
use crate::chars::lemma_last_index_of;
use crate::chars::seq_ends_with;
use crate::chars::seq_starts_with;
use crate::classify::classify_spec;
use crate::classify::last_segment;
use crate::classify::media_type_of_path;
use crate::media_type::MediaType;
use crate::mime::media_type_of_mime;
use crate::specifier::Specifier;
use vstd::prelude::*;

verus! {

/// A suffix of the part of `s` after position `k` is a suffix of `s`.
proof fn lemma_skip_suffix_to_whole(s: Seq<char>, k: int, x: Seq<char>)
    requires
        0 <= k <= s.len(),
        seq_ends_with(s.skip(k), x),
    ensures
        seq_ends_with(s, x),
{
    assert(s.skip(k).subrange(s.len() - k - x.len(), s.len() - k)
        =~= s.subrange(s.len() - x.len(), s.len() as int));
}

/// When a path ends with a suffix free of slashes, so does its final
/// segment.
proof fn lemma_last_segment_keeps_suffix(path: Seq<char>, x: Seq<char>)
    requires
        seq_ends_with(path, x),
        forall|j: int| 0 <= j < x.len() ==> x[j] != '/',
    ensures
        seq_ends_with(last_segment(path), x),
{
    lemma_last_index_of(path, '/');
    match last_index_of(path, '/') {
        Some(i) => {
            assert forall|j: int|
                path.len() - x.len() <= j < path.len() implies #[trigger] path[j]
                != '/' by {
                assert(path[j] == path.subrange(
                    path.len() - x.len(),
                    path.len() as int,
                )[j - (path.len() - x.len())]);
            }
            assert(i + 1 <= path.len() - x.len());
            assert(path.skip(i + 1).subrange(
                path.len() - i - 1 - x.len(),
                path.len() - i - 1,
            ) =~= path.subrange(path.len() - x.len(), path.len() as int));
        },
        None => {},
    }
}

/// Law: for a specifier of any scheme but `data` and no hint, a path
/// ending in `.d.ts` classifies as `Dts`: the compound two-suffix match
/// beats the single trailing suffix `.ts`.
pub proof fn lemma_compound_extension_wins(scheme: Seq<char>, path: Seq<char>)
    requires
        scheme != "data"@,
        seq_ends_with(path, ".d.ts"@),
    ensures
        classify_spec(scheme, path, None) == MediaType::Dts,
{
    reveal_strlit(".d.ts");
    assert forall|j: int| 0 <= j < ".d.ts"@.len() implies #[trigger] ".d.ts"@[j]
        != '/' by {}
    lemma_last_segment_keeps_suffix(path, ".d.ts"@);
}

/// Law: for a specifier of any scheme but `data` and no hint, a path
/// ending in `.ts` but not in `.d.ts` classifies as `TypeScript`.
pub proof fn lemma_single_extension_ts(scheme: Seq<char>, path: Seq<char>)
    requires
        scheme != "data"@,
        seq_ends_with(path, ".ts"@),
        !seq_ends_with(path, ".d.ts"@),
    ensures
        classify_spec(scheme, path, None) == MediaType::TypeScript,
{
    reveal_strlit(".ts");
    reveal_strlit(".d.ts");
    reveal_strlit(".d.mts");
    reveal_strlit(".d.cts");
    assert forall|j: int| 0 <= j < ".ts"@.len() implies #[trigger] ".ts"@[j]
        != '/' by {}
    lemma_last_segment_keeps_suffix(path, ".ts"@);
    let seg = last_segment(path);
    let n = seg.len() as int;
    assert(seg.subrange(n - 3, n) == ".ts"@);
    assert(seg[n - 3] == '.' && seg[n - 2] == 't' && seg[n - 1] == 's') by {
        assert(seg[n - 3] == seg.subrange(n - 3, n)[0]);
        assert(seg[n - 2] == seg.subrange(n - 3, n)[1]);
        assert(seg[n - 1] == seg.subrange(n - 3, n)[2]);
    }
    if seq_ends_with(seg, ".d.ts"@) {
        lemma_last_index_of(path, '/');
        match last_index_of(path, '/') {
            Some(i) => lemma_skip_suffix_to_whole(path, i + 1, ".d.ts"@),
            None => {},
        }
        assert(false);
    }
    if seq_ends_with(seg, ".d.mts"@) {
        assert(seg[n - 3] == seg.subrange(n - 6, n)[3]);
        assert(false);
    }
    if seq_ends_with(seg, ".d.cts"@) {
        assert(seg[n - 3] == seg.subrange(n - 6, n)[3]);
        assert(false);
    }
    lemma_last_index_of(seg, '.');
    match last_index_of(seg, '.') {
        Some(d) => {
            assert(d == n - 3);
            assert(seg.skip(d) =~= ".ts"@);
        },
        None => {
            assert(false);
        },
    }
}

/// Law: for a specifier of any scheme but `data`, a hint whose MIME type
/// the table recognizes decides the classification, whatever the path's
/// extension says. In particular a hint that maps to `JavaScript` yields
/// `JavaScript` even where the extension matches nothing.
pub proof fn lemma_recognized_hint_overrides_extension(
    scheme: Seq<char>,
    path: Seq<char>,
    hint: Seq<char>,
)
    requires
        scheme != "data"@,
        media_type_of_mime(hint) != MediaType::Unknown,
    ensures
        classify_spec(scheme, path, Some(hint)) == media_type_of_mime(hint),
{
}

/// Law: for a specifier of any scheme but `data`, a hint whose MIME type
/// the table does not recognize never overrides the extension: the
/// classification is the same as with no hint at all.
pub proof fn lemma_unrecognized_hint_never_overrides(
    scheme: Seq<char>,
    path: Seq<char>,
    hint: Seq<char>,
)
    requires
        scheme != "data"@,
        media_type_of_mime(hint) == MediaType::Unknown,
    ensures
        classify_spec(scheme, path, Some(hint)) == classify_spec(scheme, path, None),
{
}

/// Law: a specifier of any scheme but `data` whose path derives no media
/// type from its extension — the extension is absent or outside the table —
/// classifies as `Unknown` when no hint is given.
pub proof fn lemma_no_extension_no_hint_unknown(scheme: Seq<char>, path: Seq<char>)
    requires
        scheme != "data"@,
        media_type_of_path(path) == MediaType::Unknown,
    ensures
        classify_spec(scheme, path, None) == MediaType::Unknown,
{
}

/// Law: a `data` specifier that embeds the MIME type `application/json`
/// with a `charset` parameter classifies as `Json`, whatever hint is
/// offered: parameters are stripped before the table lookup, and the
/// embedded declaration wins over any hint.
pub proof fn lemma_data_mime_parameters_stripped(path: Seq<char>, hint: Option<Seq<char>>)
    requires
        seq_starts_with(path, "application/json;charset=utf-8,"@),
    ensures
        classify_spec("data"@, path, hint) == MediaType::Json,
{
    let lit = "application/json;charset=utf-8,"@;
    reveal_strlit("application/json;charset=utf-8,");
    reveal_strlit("application/json;charset=utf-8");
    reveal_strlit("application/json");
    assert(path.subrange(0, 31) == lit);
    assert forall|j: int| 0 <= j < 31 implies #[trigger] path[j] == lit[j] by {
        assert(path[j] == path.subrange(0, 31)[j]);
    }
    crate::chars::lemma_first_index_of(path, ',');
    assert forall|j: int| 0 <= j < 30 implies #[trigger] lit[j] != ',' by {}
    assert(path[30] == ',');
    match crate::chars::first_index_of(path, ',') {
        Some(i) => {
            assert(i == 30);
            let m = path.take(30);
            assert(m =~= "application/json;charset=utf-8"@);
            crate::chars::lemma_first_index_of(m, ';');
            assert forall|j: int| 0 <= j < 16 implies #[trigger] m[j] != ';' by {}
            assert(m[16] == ';');
            match crate::chars::first_index_of(m, ';') {
                Some(k) => {
                    assert(k == 16);
                    let base = m.take(16);
                    assert(base =~= "application/json"@);
                    assert(crate::mime::trim(base) == base);
                    assert forall|j: int|
                        0 <= j < 16 implies crate::mime::lower_char(
                        #[trigger] base[j],
                    ) == base[j] by {}
                    assert(crate::mime::lower(base) =~= base);
                    assert(crate::mime::mime_essence(m) == "application/json"@);
                    reveal_strlit("application/typescript");
                    reveal_strlit("text/typescript");
                    reveal_strlit("video/mp2t");
                    reveal_strlit("application/javascript");
                    reveal_strlit("text/javascript");
                    reveal_strlit("application/ecmascript");
                    reveal_strlit("text/ecmascript");
                    reveal_strlit("text/jsx");
                    reveal_strlit("text/tsx");
                    assert(crate::mime::mime_table("application/json"@)
                        == MediaType::Json);
                },
                None => {
                    assert(false);
                },
            }
        },
        None => {
            assert(false);
        },
    }
}

/// Law: classification is stable — two specifiers that spell the same
/// scheme and path classify alike under the same hint, so repeated
/// classification of the identical specifier always yields the identical
/// variant.
pub proof fn lemma_classification_stable(a: Specifier, b: Specifier, hint: Option<Seq<char>>)
    requires
        a.scheme@ == b.scheme@,
        a.path@ == b.path@,
    ensures
        classify_spec(a.scheme@, a.path@, hint) == classify_spec(b.scheme@, b.path@, hint),
{
}

} // verus!
