//! The parsed module reference that the classifier reads.

use vstd::prelude::*;

verus! {

/// An absolute, already-validated URL-shaped module reference, decomposed
/// into the parts that classification reads: the scheme and the path.
///
/// For non-`data` schemes the path is the slash-separated path of the URL,
/// with query and fragment already excluded by the parser. For the `data`
/// scheme the path is the opaque part, whose portion before the first comma
/// is the embedded declared MIME type.
#[derive(Clone, Debug)]
pub struct Specifier {
    /// The URL scheme, e.g. `data`, `http`, `https`, `file`, `npm`, `jsr`.
    pub scheme: String,
    /// The scheme-specific path.
    pub path: String,
}

impl Specifier {
    /// A specifier built from its two parts.
    pub fn new(scheme: String, path: String) -> (r: Specifier)
        ensures
            r.scheme@ == scheme@,
            r.path@ == path@,
    {
        Specifier { scheme, path }
    }
}

} // verus!
