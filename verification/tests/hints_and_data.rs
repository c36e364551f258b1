use media_typer::classify;
use media_typer::MediaType;
use media_typer::Specifier;

fn specifier_of(scheme: &str, path: &str) -> Specifier {
    Specifier::new(scheme.to_string(), path.to_string())
}

#[test]
fn recognized_hint_overrides_failed_extension_match() {
    // The literal case of the hint-precedence rule: a css path with a
    // JavaScript hint classifies as JavaScript.
    assert_eq!(
        classify(&specifier_of("https", "/y.css"), Some("application/javascript")),
        MediaType::JavaScript
    );
}

#[test]
fn recognized_hint_overrides_successful_extension_match() {
    assert_eq!(
        classify(&specifier_of("https", "/mod.ts"), Some("application/javascript")),
        MediaType::JavaScript
    );
}

#[test]
fn unrecognized_hint_never_overrides_extension() {
    assert_eq!(
        classify(&specifier_of("https", "/mod.ts"), Some("application/octet-stream")),
        MediaType::TypeScript
    );
    assert_eq!(
        classify(&specifier_of("https", "/mod.ts"), Some("text/plain")),
        MediaType::TypeScript
    );
}

#[test]
fn unrecognized_hint_and_no_extension_yield_unknown() {
    assert_eq!(
        classify(&specifier_of("https", "/noext"), Some("application/octet-stream")),
        MediaType::Unknown
    );
}

#[test]
fn every_mime_table_entry_as_hint() {
    let cases: Vec<(&str, MediaType)> = vec![
        ("application/typescript", MediaType::TypeScript),
        ("text/typescript", MediaType::TypeScript),
        ("video/mp2t", MediaType::TypeScript),
        ("application/javascript", MediaType::JavaScript),
        ("text/javascript", MediaType::JavaScript),
        ("application/ecmascript", MediaType::JavaScript),
        ("text/ecmascript", MediaType::JavaScript),
        ("text/jsx", MediaType::Jsx),
        ("text/tsx", MediaType::Tsx),
        ("application/json", MediaType::Json),
        ("text/json", MediaType::Json),
        ("application/wasm", MediaType::Wasm),
    ];
    for (mime, expected) in cases {
        assert_eq!(classify(&specifier_of("https", "/noext"), Some(mime)), expected);
    }
}

#[test]
fn hint_is_normalized_before_lookup() {
    assert_eq!(
        classify(&specifier_of("https", "/noext"), Some("application/json; charset=utf-8")),
        MediaType::Json
    );
    assert_eq!(
        classify(&specifier_of("https", "/noext"), Some("  Text/JavaScript  ")),
        MediaType::JavaScript
    );
}

#[test]
fn data_embedded_mime_decides() {
    assert_eq!(
        classify(&specifier_of("data", "application/json;charset=utf-8,{}"), None),
        MediaType::Json
    );
    assert_eq!(
        classify(&specifier_of("data", "application/wasm;base64,AGFzbQ=="), None),
        MediaType::Wasm
    );
    assert_eq!(
        classify(&specifier_of("data", "text/typescript,console"), None),
        MediaType::TypeScript
    );
}

#[test]
fn data_ignores_the_hint() {
    assert_eq!(
        classify(
            &specifier_of("data", "text/plain,hello"),
            Some("application/javascript")
        ),
        MediaType::Unknown
    );
    assert_eq!(
        classify(
            &specifier_of("data", "application/json,{}"),
            Some("application/wasm")
        ),
        MediaType::Json
    );
}

#[test]
fn data_without_comma_is_malformed() {
    assert_eq!(classify(&specifier_of("data", "application/json"), None), MediaType::Unknown);
    assert_eq!(classify(&specifier_of("data", ""), None), MediaType::Unknown);
}

#[test]
fn data_with_unrecognized_mime_is_unknown() {
    assert_eq!(classify(&specifier_of("data", "text/plain,hello"), None), MediaType::Unknown);
    assert_eq!(classify(&specifier_of("data", ",body"), None), MediaType::Unknown);
}
