use media_typer::classify;
use media_typer::MediaType;
use media_typer::Specifier;

fn specifier_of(scheme: &str, path: &str) -> Specifier {
    Specifier::new(scheme.to_string(), path.to_string())
}

#[test]
fn ts_extension_yields_typescript() {
    assert_eq!(classify(&specifier_of("https", "/a/mod.ts"), None), MediaType::TypeScript);
    assert_eq!(classify(&specifier_of("file", "/a/b/mod.ts"), None), MediaType::TypeScript);
}

#[test]
fn compound_extension_beats_single() {
    assert_eq!(classify(&specifier_of("https", "/a/mod.d.ts"), None), MediaType::Dts);
    assert_eq!(classify(&specifier_of("file", "/a/b/mod.d.mts"), None), MediaType::Dmts);
    assert_eq!(classify(&specifier_of("npm", "/pkg/mod.d.cts"), None), MediaType::Dcts);
}

#[test]
fn short_name_is_not_a_compound_match() {
    // "d.ts" does not end in ".d.ts": the single suffix ".ts" decides.
    assert_eq!(classify(&specifier_of("https", "/d.ts"), None), MediaType::TypeScript);
}

#[test]
fn every_single_extension_entry() {
    let cases: Vec<(&str, MediaType)> = vec![
        ("/m.ts", MediaType::TypeScript),
        ("/m.mts", MediaType::Mts),
        ("/m.cts", MediaType::Cts),
        ("/m.tsx", MediaType::Tsx),
        ("/m.js", MediaType::JavaScript),
        ("/m.mjs", MediaType::Mjs),
        ("/m.cjs", MediaType::Cjs),
        ("/m.jsx", MediaType::Jsx),
        ("/m.json", MediaType::Json),
        ("/m.wasm", MediaType::Wasm),
        ("/m.tsbuildinfo", MediaType::TsBuildInfo),
        ("/m.map", MediaType::SourceMap),
        ("/m.d.ts", MediaType::Dts),
        ("/m.d.mts", MediaType::Dmts),
        ("/m.d.cts", MediaType::Dcts),
    ];
    for (path, expected) in cases {
        assert_eq!(classify(&specifier_of("https", path), None), expected);
    }
}

#[test]
fn unrecognized_or_absent_extension_yields_unknown() {
    assert_eq!(classify(&specifier_of("https", "/noext"), None), MediaType::Unknown);
    assert_eq!(classify(&specifier_of("https", "/style.css"), None), MediaType::Unknown);
    assert_eq!(classify(&specifier_of("https", "/a/b/"), None), MediaType::Unknown);
    assert_eq!(classify(&specifier_of("https", ""), None), MediaType::Unknown);
}

#[test]
fn extension_match_is_case_sensitive() {
    assert_eq!(classify(&specifier_of("https", "/MOD.TS"), None), MediaType::Unknown);
}

#[test]
fn only_the_final_segment_counts() {
    assert_eq!(classify(&specifier_of("https", "/a.ts/readme"), None), MediaType::Unknown);
    assert_eq!(classify(&specifier_of("https", "/a.js/mod.ts"), None), MediaType::TypeScript);
}

#[test]
fn last_dot_decides_the_single_suffix() {
    assert_eq!(classify(&specifier_of("https", "/archive.tar.js"), None), MediaType::JavaScript);
    assert_eq!(classify(&specifier_of("https", "/.ts"), None), MediaType::TypeScript);
}

#[test]
fn repeated_classification_is_stable() {
    let s = specifier_of("https", "/a/mod.ts");
    let first = classify(&s, None);
    for _ in 0..5 {
        assert_eq!(classify(&s, None), first);
    }
    let d = specifier_of("data", "application/json;charset=utf-8,[]");
    let first_data = classify(&d, None);
    assert_eq!(classify(&d, None), first_data);
}
