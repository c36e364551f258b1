//! The closed set of classification outcomes and their canonical text.

use vstd::prelude::*;

verus! {

/// The media type of a module: how its contents should be parsed and
/// transformed by downstream stages. `Unknown` is a legitimate outcome for
/// unrecognized input, not an error.
#[derive(Clone, Copy, Debug, PartialEq, Eq, Structural)]
pub enum MediaType {
    JavaScript,
    Mjs,
    Cjs,
    Jsx,
    TypeScript,
    Mts,
    Cts,
    Tsx,
    Dts,
    Dmts,
    Dcts,
    Json,
    Wasm,
    TsBuildInfo,
    SourceMap,
    Unknown,
}

/// The canonical textual rendering of each media type: the lowercase
/// spelling of the variant's name.
pub open spec fn render_spec(media_type: MediaType) -> Seq<char> {
    match media_type {
        MediaType::JavaScript => "javascript"@,
        MediaType::Mjs => "mjs"@,
        MediaType::Cjs => "cjs"@,
        MediaType::Jsx => "jsx"@,
        MediaType::TypeScript => "typescript"@,
        MediaType::Mts => "mts"@,
        MediaType::Cts => "cts"@,
        MediaType::Tsx => "tsx"@,
        MediaType::Dts => "dts"@,
        MediaType::Dmts => "dmts"@,
        MediaType::Dcts => "dcts"@,
        MediaType::Json => "json"@,
        MediaType::Wasm => "wasm"@,
        MediaType::TsBuildInfo => "tsbuildinfo"@,
        MediaType::SourceMap => "sourcemap"@,
        MediaType::Unknown => "unknown"@,
    }
}

impl MediaType {
    /// The canonical lowercase name of this media type, used when the result
    /// crosses the system boundary.
    pub fn to_text(&self) -> (r: String)
        ensures
            r@ == render_spec(*self),
    {
        match self {
            MediaType::JavaScript => String::from_str("javascript"),
            MediaType::Mjs => String::from_str("mjs"),
            MediaType::Cjs => String::from_str("cjs"),
            MediaType::Jsx => String::from_str("jsx"),
            MediaType::TypeScript => String::from_str("typescript"),
            MediaType::Mts => String::from_str("mts"),
            MediaType::Cts => String::from_str("cts"),
            MediaType::Tsx => String::from_str("tsx"),
            MediaType::Dts => String::from_str("dts"),
            MediaType::Dmts => String::from_str("dmts"),
            MediaType::Dcts => String::from_str("dcts"),
            MediaType::Json => String::from_str("json"),
            MediaType::Wasm => String::from_str("wasm"),
            MediaType::TsBuildInfo => String::from_str("tsbuildinfo"),
            MediaType::SourceMap => String::from_str("sourcemap"),
            MediaType::Unknown => String::from_str("unknown"),
        }
    }
}

} // verus!
