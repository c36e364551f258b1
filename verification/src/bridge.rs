//! The entry point that takes raw specifier text: parse (through the URL
//! parser), classify, render.

use crate::classify::classify;
use crate::classify::classify_spec;
use crate::media_type::render_spec;
use crate::specifier::Specifier;
use vstd::prelude::*;

verus! {

/// The failure of the specifier parser on text that is not a well-formed
/// absolute URL. Distinct from `MediaType::Unknown`, which is a successful
/// classification of a valid specifier.
#[derive(Clone, Debug)]
pub struct ParseError {
    /// What the parser reported.
    pub message: String,
}

/// Whether the WHATWG URL parser accepts `text` as an absolute URL.
pub uninterp spec fn url_parse_ok(text: Seq<char>) -> bool;

/// The scheme of the URL parsed from `text`, when the parser accepts it.
pub uninterp spec fn url_scheme(text: Seq<char>) -> Seq<char>;

/// The path of the URL parsed from `text`, when the parser accepts it:
/// what stands after the scheme, up to any query or fragment; for the
/// `data` scheme, the opaque content.
pub uninterp spec fn url_path(text: Seq<char>) -> Seq<char>;

/// Relies on `url::Url::parse`, the WHATWG URL parser: whether a text
/// parses, and the scheme and path of the URL it parses to, depend on the
/// text alone. On failure, `url::ParseError`'s `Display` supplies the
/// message.
#[verifier::external_body]
fn parse_specifier_text(text: &str) -> (r: Result<Specifier, ParseError>)
    ensures
        r is Ok <==> url_parse_ok(text@),
        r is Ok ==> r->Ok_0.scheme@ == url_scheme(text@),
        r is Ok ==> r->Ok_0.path@ == url_path(text@),
{
    match url::Url::parse(text) {
        Ok(u) => Ok(Specifier {
            scheme: u.scheme().to_string(),
            path: u.path().to_string(),
        }),
        Err(e) => Err(ParseError { message: e.to_string() }),
    }
}

/// The canonical text of the media type of the module that `url` references,
/// classified without a content-type hint; or the parser's error when `url`
/// is not a well-formed absolute URL. A parse failure is surfaced as
/// `ParseError`, never coerced into an `unknown` classification.
pub fn from_specifier(url: &str) -> (r: Result<String, ParseError>)
    ensures
        r is Ok <==> url_parse_ok(url@),
        r is Ok ==> r->Ok_0@ == render_spec(
            classify_spec(url_scheme(url@), url_path(url@), None),
        ),
{
    match parse_specifier_text(url) {
        Ok(specifier) => {
            let media_type = classify(&specifier, None);
            Ok(media_type.to_text())
        },
        Err(e) => Err(e),
    }
}

} // verus!
