//! The closed set of target languages, and the parsing of a language name as
//! it arrives from the command line.
use vstd::prelude::*;

verus! {

/// A target language for binding and documentation generation.  The set is
/// closed: adding a variant means adding both a binding-tool and a doc-tool
/// mapping.
#[derive(Clone, Copy, PartialEq, Eq, Structural, Debug)]
pub enum Language {
    Rust,
    Python,
}

/// ASCII lowercasing of one character; anything but an ASCII capital letter
/// is left alone.
pub open spec fn lower_char(c: char) -> char {
    if 'A' <= c && c <= 'Z' {
        ((c as u32) + 32) as char
    } else {
        c
    }
}

/// ASCII lowercasing of a whole name.
pub open spec fn lower_seq(s: Seq<char>) -> Seq<char> {
    s.map_values(|c: char| lower_char(c))
}

/// Which language a name denotes: the comparison ignores ASCII case, so
/// `Rust` and `PYTHON` are accepted alongside `rust` and `python`.
pub open spec fn lang_of(s: Seq<char>) -> Option<Language> {
    if lower_seq(s) == "rust"@ {
        Some(Language::Rust)
    } else if lower_seq(s) == "python"@ {
        Some(Language::Python)
    } else {
        None
    }
}

/// Executable ASCII lowercasing of one character.
fn lower_char_exec(c: char) -> (r: char)
    ensures
        r == lower_char(c),
{
    if 'A' <= c && c <= 'Z' {
        (((c as u32) + 32) as u8) as char
    } else {
        c
    }
}

/// Decide which language, if any, a name denotes.
pub fn language_of(name: &str) -> (r: Option<Language>)
    ensures
        r == lang_of(name@),
{
    proof {
        reveal_strlit("rust");
        reveal_strlit("python");
    }
    let n: usize = name.unicode_len();
    if n == 4 {
        let ok: bool = lower_char_exec(name.get_char(0)) == 'r' && lower_char_exec(
            name.get_char(1),
        ) == 'u' && lower_char_exec(name.get_char(2)) == 's' && lower_char_exec(name.get_char(3))
            == 't';
        if ok {
            proof {
                assert(lower_seq(name@) =~= "rust"@);
            }
            Some(Language::Rust)
        } else {
            proof {
                assert(lower_seq(name@)[0] == lower_char(name@[0]));
                assert(lower_seq(name@)[1] == lower_char(name@[1]));
                assert(lower_seq(name@)[2] == lower_char(name@[2]));
                assert(lower_seq(name@)[3] == lower_char(name@[3]));
                assert(lower_seq(name@) != "rust"@);
                assert(lower_seq(name@).len() != "python"@.len());
            }
            None
        }
    } else if n == 6 {
        let ok: bool = lower_char_exec(name.get_char(0)) == 'p' && lower_char_exec(
            name.get_char(1),
        ) == 'y' && lower_char_exec(name.get_char(2)) == 't' && lower_char_exec(name.get_char(3))
            == 'h' && lower_char_exec(name.get_char(4)) == 'o' && lower_char_exec(name.get_char(5))
            == 'n';
        if ok {
            proof {
                assert(lower_seq(name@) =~= "python"@);
            }
            Some(Language::Python)
        } else {
            proof {
                assert(lower_seq(name@)[0] == lower_char(name@[0]));
                assert(lower_seq(name@)[1] == lower_char(name@[1]));
                assert(lower_seq(name@)[2] == lower_char(name@[2]));
                assert(lower_seq(name@)[3] == lower_char(name@[3]));
                assert(lower_seq(name@)[4] == lower_char(name@[4]));
                assert(lower_seq(name@)[5] == lower_char(name@[5]));
                assert(lower_seq(name@) != "python"@);
                assert(lower_seq(name@).len() != "rust"@.len());
            }
            None
        }
    } else {
        proof {
            assert(lower_seq(name@).len() != "rust"@.len());
            assert(lower_seq(name@).len() != "python"@.len());
        }
        None
    }
}

/// Validate a language name from the command line: a supported name is handed
/// back unchanged, any other is rejected with the message that lists the
/// supported languages.
pub fn parse_lang(name: &str) -> (r: Result<String, String>)
    ensures
        r is Ok <==> lang_of(name@) is Some,
        (r matches Ok(s) ==> s@ == name@),
        (r matches Err(e) ==> e@ == "Following languages are currently supported: rust, python"@),
{
    match language_of(name) {
        Some(_) => Ok(String::from_str(name)),
        None => Err(
            String::from_str("Following languages are currently supported: rust, python"),
        ),
    }
}

/// The arguments of the `inspect` subcommand: the path of the component to
/// inspect, and the language to generate bindings and docs for.
#[derive(Clone, Debug)]
pub struct Inspect {
    /// Path to the component file.
    pub path: String,
    /// Language to generate docs for bindings.
    pub language: String,
}

impl Inspect {
    /// Bundle the two command-line arguments.
    pub fn new(path: String, language: String) -> (r: Inspect)
        ensures
            r.path == path,
            r.language == language,
    {
        Inspect { path, language }
    }

    /// The language the arguments ask for, if it is a supported one.
    pub fn requested_language(&self) -> (r: Option<Language>)
        ensures
            r == lang_of(self.language@),
    {
        language_of(self.language.as_str())
    }
}

} // verus!
