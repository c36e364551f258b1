//! The media type classifier: a total, deterministic mapping from a
//! specifier and an optional content-type hint to a media type.

use crate::chars::chars_end_with;
use crate::chars::chars_eq;
use crate::chars::chars_first_index_of;
use crate::chars::chars_last_index_of;
use crate::chars::first_index_of;
use crate::chars::last_index_of;
use crate::chars::lemma_first_index_of;
use crate::chars::lemma_last_index_of;
use crate::chars::seq_ends_with;
use crate::chars::str_chars;
use crate::chars::str_eq;
use crate::chars::subvec;
use crate::media_type::MediaType;
use crate::mime::media_type_from_mime;
use crate::mime::media_type_of_mime;
use crate::specifier::Specifier;
use vstd::prelude::*;

verus! {

/// The final segment of a slash-separated path: everything after the last
/// `/`, or the whole path when it has none.
pub open spec fn last_segment(path: Seq<char>) -> Seq<char> {
    match last_index_of(path, '/') {
        Some(i) => path.skip(i + 1),
        None => path,
    }
}

/// The extension table: the media type of a single trailing suffix, matched
/// case-sensitively with its leading dot. Anything else maps to `Unknown`.
pub open spec fn extension_table(ext: Seq<char>) -> MediaType {
    if ext == ".ts"@ {
        MediaType::TypeScript
    } else if ext == ".mts"@ {
        MediaType::Mts
    } else if ext == ".cts"@ {
        MediaType::Cts
    } else if ext == ".tsx"@ {
        MediaType::Tsx
    } else if ext == ".js"@ {
        MediaType::JavaScript
    } else if ext == ".mjs"@ {
        MediaType::Mjs
    } else if ext == ".cjs"@ {
        MediaType::Cjs
    } else if ext == ".jsx"@ {
        MediaType::Jsx
    } else if ext == ".json"@ {
        MediaType::Json
    } else if ext == ".wasm"@ {
        MediaType::Wasm
    } else if ext == ".tsbuildinfo"@ {
        MediaType::TsBuildInfo
    } else if ext == ".map"@ {
        MediaType::SourceMap
    } else {
        MediaType::Unknown
    }
}

/// The media type of a file name: a compound two-suffix match (`.d.ts`,
/// `.d.mts`, `.d.cts`) beats the single trailing suffix, which is looked up
/// in the extension table; a name without a dot has no extension and maps
/// to `Unknown`.
pub open spec fn media_type_of_segment(seg: Seq<char>) -> MediaType {
    if seq_ends_with(seg, ".d.ts"@) {
        MediaType::Dts
    } else if seq_ends_with(seg, ".d.mts"@) {
        MediaType::Dmts
    } else if seq_ends_with(seg, ".d.cts"@) {
        MediaType::Dcts
    } else {
        match last_index_of(seg, '.') {
            Some(i) => extension_table(seg.skip(i)),
            None => MediaType::Unknown,
        }
    }
}

/// The media type that a path derives from its extension alone.
pub open spec fn media_type_of_path(path: Seq<char>) -> MediaType {
    media_type_of_segment(last_segment(path))
}

/// What `classify` returns.
///
/// For the `data` scheme the embedded MIME type — the portion of the opaque
/// part before the first comma — alone decides; a hint is ignored, and a
/// missing comma means a malformed data URL, hence `Unknown`. For every
/// other scheme the extension of the final path segment decides, except
/// that a hint whose MIME type the table recognizes takes precedence; a
/// hint the table does not recognize never overrides the extension.
pub open spec fn classify_spec(
    scheme: Seq<char>,
    path: Seq<char>,
    hint: Option<Seq<char>>,
) -> MediaType {
    if scheme == "data"@ {
        match first_index_of(path, ',') {
            Some(i) => media_type_of_mime(path.take(i)),
            None => MediaType::Unknown,
        }
    } else {
        match hint {
            Some(h) => {
                if media_type_of_mime(h) == MediaType::Unknown {
                    media_type_of_path(path)
                } else {
                    media_type_of_mime(h)
                }
            },
            None => media_type_of_path(path),
        }
    }
}

/// The characters of an optional content-type hint.
pub open spec fn hint_view(hint: Option<&str>) -> Option<Seq<char>> {
    match hint {
        Some(h) => Some(h@),
        None => None,
    }
}

/// The media type of the file name in `seg`, by its extension.
fn media_type_from_segment(seg: &Vec<char>) -> (r: MediaType)
    ensures
        r == media_type_of_segment(seg@),
{
    if chars_end_with(seg, ".d.ts") {
        return MediaType::Dts;
    }
    if chars_end_with(seg, ".d.mts") {
        return MediaType::Dmts;
    }
    if chars_end_with(seg, ".d.cts") {
        return MediaType::Dcts;
    }
    proof {
        lemma_last_index_of(seg@, '.');
    }
    match chars_last_index_of(seg, '.') {
        Some(i) => {
            let ext = subvec(seg, i, seg.len());
            proof {
                assert(ext@ =~= seg@.skip(i as int));
            }
            if chars_eq(&ext, ".ts") {
                MediaType::TypeScript
            } else if chars_eq(&ext, ".mts") {
                MediaType::Mts
            } else if chars_eq(&ext, ".cts") {
                MediaType::Cts
            } else if chars_eq(&ext, ".tsx") {
                MediaType::Tsx
            } else if chars_eq(&ext, ".js") {
                MediaType::JavaScript
            } else if chars_eq(&ext, ".mjs") {
                MediaType::Mjs
            } else if chars_eq(&ext, ".cjs") {
                MediaType::Cjs
            } else if chars_eq(&ext, ".jsx") {
                MediaType::Jsx
            } else if chars_eq(&ext, ".json") {
                MediaType::Json
            } else if chars_eq(&ext, ".wasm") {
                MediaType::Wasm
            } else if chars_eq(&ext, ".tsbuildinfo") {
                MediaType::TsBuildInfo
            } else if chars_eq(&ext, ".map") {
                MediaType::SourceMap
            } else {
                MediaType::Unknown
            }
        },
        None => MediaType::Unknown,
    }
}

/// The media type of a module reference.
///
/// Total and deterministic: the result is `classify_spec` of the specifier's
/// parts and the hint, for every input. `Unknown` is an ordinary outcome for
/// unrecognized input, never a failure.
pub fn classify(specifier: &Specifier, hint: Option<&str>) -> (r: MediaType)
    ensures
        r == classify_spec(specifier.scheme@, specifier.path@, hint_view(hint)),
{
    let path = str_chars(specifier.path.as_str());
    if str_eq(specifier.scheme.as_str(), "data") {
        proof {
            lemma_first_index_of(path@, ',');
        }
        match chars_first_index_of(&path, ',') {
            Some(i) => {
                let mime = subvec(&path, 0, i);
                proof {
                    assert(mime@ =~= path@.take(i as int));
                }
                media_type_from_mime(&mime)
            },
            None => MediaType::Unknown,
        }
    } else {
        proof {
            lemma_last_index_of(path@, '/');
        }
        let seg = match chars_last_index_of(&path, '/') {
            Some(i) => {
                let s = subvec(&path, i + 1, path.len());
                proof {
                    assert(s@ =~= path@.skip(i + 1));
                }
                s
            },
            None => {
                let s = subvec(&path, 0, path.len());
                proof {
                    assert(s@ =~= path@);
                }
                s
            },
        };
        let from_extension = media_type_from_segment(&seg);
        match hint {
            Some(h) => {
                let hint_chars = str_chars(h);
                let from_hint = media_type_from_mime(&hint_chars);
                if from_hint == MediaType::Unknown {
                    from_extension
                } else {
                    from_hint
                }
            },
            None => from_extension,
        }
    }
}

} // verus!
