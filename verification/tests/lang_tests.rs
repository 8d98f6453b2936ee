use wit_inspect::lang::{language_of, parse_lang, Inspect, Language};

#[test]
fn parse_lang_accepts_rust_and_python() {
    assert_eq!(parse_lang("rust"), Ok("rust".to_string()));
    assert_eq!(parse_lang("python"), Ok("python".to_string()));
}

#[test]
fn parse_lang_ignores_ascii_case_and_keeps_the_name() {
    assert_eq!(parse_lang("Rust"), Ok("Rust".to_string()));
    assert_eq!(parse_lang("PYTHON"), Ok("PYTHON".to_string()));
}

#[test]
fn parse_lang_rejects_unsupported_language() {
    assert_eq!(
        parse_lang("java"),
        Err("Following languages are currently supported: rust, python".to_string())
    );
    assert!(parse_lang("").is_err());
    assert!(parse_lang("rustt").is_err());
    assert!(parse_lang("pytho").is_err());
}

#[test]
fn language_of_maps_names_to_the_closed_set() {
    assert_eq!(language_of("rust"), Some(Language::Rust));
    assert_eq!(language_of("python"), Some(Language::Python));
    assert_eq!(language_of("RuSt"), Some(Language::Rust));
    assert_eq!(language_of("java"), None);
    assert_eq!(language_of("go"), None);
}

#[test]
fn inspect_carries_its_arguments() {
    let i = Inspect::new("a.wasm".to_string(), "rust".to_string());
    assert_eq!(i.path, "a.wasm");
    assert_eq!(i.language, "rust");
    assert_eq!(i.requested_language(), Some(Language::Rust));
    let j = Inspect::new("b.wasm".to_string(), "java".to_string());
    assert_eq!(j.requested_language(), None);
}
