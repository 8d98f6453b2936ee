//! The calling contracts of the external tools: which program each stage
//! invokes, with which arguments, where its output is expected, and the text
//! of the generated package manifest.  The driver only spawns what these
//! functions hand it.
use vstd::prelude::*;
use crate::lang::Language;

verus! {

/// One external tool invocation: the program and its arguments.
#[derive(Clone, Debug)]
pub struct ToolCommand {
    pub program: String,
    pub args: Vec<String>,
}

/// Concatenate a directory path, a separator, and an entry name.
pub fn join_path(base: &str, tail: &str) -> (r: String)
    ensures
        r@ == base@ + "/"@ + tail@,
{
    let mut out = String::from_str(base);
    out.append("/");
    out.append(tail);
    out
}

/// Where the extracted interface description lives inside the workspace.
pub fn description_path(workspace: &str) -> (r: String)
    ensures
        r@ == workspace@ + "/"@ + "guest.wit"@,
{
    join_path(workspace, "guest.wit")
}

/// The extraction call: the external tool turns the component into a textual
/// interface description at `description_path`.
pub fn extract_command(component_path: &str, description_path: &str) -> (r: ToolCommand)
    ensures
        r.program@ == "wasm-tools"@,
        r.args.deep_view() =~= seq!["component"@, "wit"@, component_path@, "-o"@, description_path@],
{
    let cmd = ToolCommand {
        program: String::from_str("wasm-tools"),
        args: vec![
            String::from_str("component"),
            String::from_str("wit"),
            String::from_str(component_path),
            String::from_str("-o"),
            String::from_str(description_path),
        ],
    };
    cmd
}

/// The structured-mode call: the same external tool, asked for machine-
/// readable metadata on standard output instead of grammar text.
pub fn metadata_command(component_path: &str) -> (r: ToolCommand)
    ensures
        r.program@ == "wasm-tools"@,
        r.args.deep_view() =~= seq!["component"@, "wit"@, component_path@, "--json"@],
{
    let cmd = ToolCommand {
        program: String::from_str("wasm-tools"),
        args: vec![
            String::from_str("component"),
            String::from_str("wit"),
            String::from_str(component_path),
            String::from_str("--json"),
        ],
    };
    cmd
}

/// The per-language binding generator call.  The Rust backend reads the
/// flipped description and emits sources into the workspace's `src`
/// subdirectory; the Python backend additionally needs the resolved world
/// name and emits into the workspace root.
pub fn binding_command(lang: Language, description_path: &str, world: &str, workspace: &str) -> (r:
    ToolCommand)
    ensures
        lang is Rust ==> r.program@ == "wit-bindgen"@ && r.args.deep_view() =~= seq![
            "rust"@,
            description_path@,
            "--out-dir"@,
            workspace@ + "/"@ + "src"@,
        ],
        lang is Python ==> r.program@ == "componentize-py"@ && r.args.deep_view() =~= seq![
            "-d"@,
            description_path@,
            "-w"@,
            world@,
            "bindings"@,
            workspace@,
        ],
{
    match lang {
        Language::Rust => {
            let cmd = ToolCommand {
                program: String::from_str("wit-bindgen"),
                args: vec![
                    String::from_str("rust"),
                    String::from_str(description_path),
                    String::from_str("--out-dir"),
                    join_path(workspace, "src"),
                ],
            };
            cmd
        },
        Language::Python => {
            let cmd = ToolCommand {
                program: String::from_str("componentize-py"),
                args: vec![
                    String::from_str("-d"),
                    String::from_str(description_path),
                    String::from_str("-w"),
                    String::from_str(world),
                    String::from_str("bindings"),
                    String::from_str(workspace),
                ],
            };
            cmd
        },
    }
}

/// The per-language documentation generator call.  The Rust backend runs the
/// doc tool against the generated manifest; the Python backend runs it
/// against the bindings directory named after the world, emitting HTML into
/// the workspace's `docs` subdirectory.
pub fn doc_command(lang: Language, world: &str, workspace: &str) -> (r: ToolCommand)
    ensures
        lang is Rust ==> r.program@ == "cargo"@ && r.args.deep_view() =~= seq![
            "doc"@,
            "--manifest-path"@,
            workspace@ + "/"@ + "Cargo.toml"@,
            "--open"@,
        ],
        lang is Python ==> r.program@ == "pydoctor"@ && r.args.deep_view() =~= seq![
            "--make-html"@,
            "--html-output"@,
            workspace@ + "/"@ + "docs"@,
            workspace@ + "/"@ + world@,
        ],
{
    match lang {
        Language::Rust => {
            let cmd = ToolCommand {
                program: String::from_str("cargo"),
                args: vec![
                    String::from_str("doc"),
                    String::from_str("--manifest-path"),
                    join_path(workspace, "Cargo.toml"),
                    String::from_str("--open"),
                ],
            };
            cmd
        },
        Language::Python => {
            let cmd = ToolCommand {
                program: String::from_str("pydoctor"),
                args: vec![
                    String::from_str("--make-html"),
                    String::from_str("--html-output"),
                    join_path(workspace, "docs"),
                    join_path(workspace, world),
                ],
            };
            cmd
        },
    }
}

/// Where the generated documentation's entry point is expected, per language:
/// a fixed relative path keyed by the world name for Rust, a fixed index file
/// under the docs subdirectory for Python.
pub fn doc_entry_point(lang: Language, world: &str, workspace: &str) -> (r: String)
    ensures
        lang is Rust ==> r@ == workspace@ + "/"@ + "target/doc"@ + "/"@ + world@ + "/"@
            + "index.html"@,
        lang is Python ==> r@ == workspace@ + "/"@ + "docs"@ + "/"@ + "index.html"@,
{
    match lang {
        Language::Rust => {
            let mut out = join_path(workspace, "target/doc");
            out.append("/");
            out.append(world);
            out.append("/");
            out.append("index.html");
            out
        },
        Language::Python => {
            let mut out = join_path(workspace, "docs");
            out.append("/");
            out.append("index.html");
            out
        },
    }
}

/// The text of the generated package manifest: the package and its library
/// entry are named after the world, and the binding generator's runtime
/// library is the one dependency.
pub open spec fn manifest_text(world: Seq<char>) -> Seq<char> {
    "[package]\nname = \""@ + world
        + "\"\nversion = \"0.1.0\"\nedition = \"2021\"\n\n[lib]\npath = \"src/"@ + world
        + ".rs\"\n\n[dependencies]\nwit-bindgen = \"0.11.0\"\n"@
}

/// Build the manifest that the Rust documentation backend runs against.
pub fn manifest_contents(world: &str) -> (r: String)
    ensures
        r@ == manifest_text(world@),
{
    let mut out = String::from_str("[package]\nname = \"");
    out.append(world);
    out.append("\"\nversion = \"0.1.0\"\nedition = \"2021\"\n\n[lib]\npath = \"src/");
    out.append(world);
    out.append(".rs\"\n\n[dependencies]\nwit-bindgen = \"0.11.0\"\n");
    proof {
        assert(out@ =~= manifest_text(world@));
    }
    out
}

} // verus!
