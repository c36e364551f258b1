use media_typer::classify;
use media_typer::from_specifier;
use media_typer::MediaType;
use media_typer::Specifier;

#[test]
fn file_url_classifies_by_extension() {
    assert_eq!(from_specifier("file:///a/b/mod.ts").unwrap(), "typescript");
    assert_eq!(from_specifier("file:///a/b/mod.d.mts").unwrap(), "dmts");
}

#[test]
fn query_is_ignored() {
    assert_eq!(from_specifier("https://example.com/x.json?v=2").unwrap(), "json");
}

#[test]
fn fragment_is_ignored() {
    assert_eq!(from_specifier("https://example.com/m.js#sec").unwrap(), "javascript");
}

#[test]
fn data_url_classifies_by_embedded_mime() {
    assert_eq!(
        from_specifier("data:application/wasm;base64,AGFzbQ==").unwrap(),
        "wasm"
    );
    assert_eq!(
        from_specifier("data:application/json;charset=utf-8,{}").unwrap(),
        "json"
    );
}

#[test]
fn missing_extension_is_unknown_not_an_error() {
    assert_eq!(from_specifier("https://example.com/noext").unwrap(), "unknown");
}

#[test]
fn malformed_text_is_a_parse_error_not_unknown() {
    let r = from_specifier("not a url");
    assert!(r.is_err());
    assert!(!r.unwrap_err().message.is_empty());
}

#[test]
fn every_variant_renders_to_its_lowercase_name() {
    let cases: Vec<(MediaType, &str)> = vec![
        (MediaType::JavaScript, "javascript"),
        (MediaType::Mjs, "mjs"),
        (MediaType::Cjs, "cjs"),
        (MediaType::Jsx, "jsx"),
        (MediaType::TypeScript, "typescript"),
        (MediaType::Mts, "mts"),
        (MediaType::Cts, "cts"),
        (MediaType::Tsx, "tsx"),
        (MediaType::Dts, "dts"),
        (MediaType::Dmts, "dmts"),
        (MediaType::Dcts, "dcts"),
        (MediaType::Json, "json"),
        (MediaType::Wasm, "wasm"),
        (MediaType::TsBuildInfo, "tsbuildinfo"),
        (MediaType::SourceMap, "sourcemap"),
        (MediaType::Unknown, "unknown"),
    ];
    for (media_type, expected) in cases {
        assert_eq!(media_type.to_text(), expected);
    }
}

#[test]
fn parsing_agrees_with_direct_classification() {
    let direct = classify(
        &Specifier::new("https".to_string(), "/x.json".to_string()),
        None,
    );
    assert_eq!(direct, MediaType::Json);
    assert_eq!(
        from_specifier("https://example.com/x.json?v=2").unwrap(),
        direct.to_text()
    );
}
