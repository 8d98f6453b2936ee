use wit_inspect::commands::{
    binding_command, description_path, doc_command, doc_entry_point, extract_command,
    manifest_contents, metadata_command,
};
use wit_inspect::lang::Language;

#[test]
fn extraction_calling_contract() {
    let cmd = extract_command("a.wasm", "/tmp/ws/guest.wit");
    assert_eq!(cmd.program, "wasm-tools");
    assert_eq!(cmd.args, vec!["component", "wit", "a.wasm", "-o", "/tmp/ws/guest.wit"]);
}

#[test]
fn metadata_calling_contract() {
    let cmd = metadata_command("a.wasm");
    assert_eq!(cmd.program, "wasm-tools");
    assert_eq!(cmd.args, vec!["component", "wit", "a.wasm", "--json"]);
}

#[test]
fn description_lives_in_the_workspace() {
    assert_eq!(description_path("/tmp/ws"), "/tmp/ws/guest.wit");
}

#[test]
fn rust_binding_calling_contract() {
    let cmd = binding_command(Language::Rust, "/tmp/ws/guest.wit", "root", "/tmp/ws");
    assert_eq!(cmd.program, "wit-bindgen");
    assert_eq!(cmd.args, vec!["rust", "/tmp/ws/guest.wit", "--out-dir", "/tmp/ws/src"]);
}

#[test]
fn python_binding_calling_contract() {
    let cmd = binding_command(Language::Python, "/tmp/ws/guest.wit", "root", "/tmp/ws");
    assert_eq!(cmd.program, "componentize-py");
    assert_eq!(
        cmd.args,
        vec!["-d", "/tmp/ws/guest.wit", "-w", "root", "bindings", "/tmp/ws"]
    );
}

#[test]
fn rust_doc_calling_contract() {
    let cmd = doc_command(Language::Rust, "root", "/tmp/ws");
    assert_eq!(cmd.program, "cargo");
    assert_eq!(cmd.args, vec!["doc", "--manifest-path", "/tmp/ws/Cargo.toml", "--open"]);
}

#[test]
fn python_doc_calling_contract() {
    let cmd = doc_command(Language::Python, "root", "/tmp/ws");
    assert_eq!(cmd.program, "pydoctor");
    assert_eq!(
        cmd.args,
        vec!["--make-html", "--html-output", "/tmp/ws/docs", "/tmp/ws/root"]
    );
}

#[test]
fn doc_entry_points() {
    assert_eq!(
        doc_entry_point(Language::Rust, "root", "/tmp/ws"),
        "/tmp/ws/target/doc/root/index.html"
    );
    assert_eq!(doc_entry_point(Language::Python, "root", "/tmp/ws"), "/tmp/ws/docs/index.html");
}

#[test]
fn manifest_names_the_package_after_the_world() {
    let expected = "[package]\nname = \"root\"\nversion = \"0.1.0\"\nedition = \"2021\"\n\n[lib]\npath = \"src/root.rs\"\n\n[dependencies]\nwit-bindgen = \"0.11.0\"\n";
    assert_eq!(manifest_contents("root"), expected);
}
