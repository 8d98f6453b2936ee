//! World resolution: reading the structured metadata that the extraction
//! tool emits and selecting the canonical root grouping ("world").
//!
//! The metadata is a JSON object with a `worlds` array whose records each
//! carry a `name` string.  Resolution picks the first listed name; it fails
//! when the document cannot be parsed, and when the list is empty or absent.
use vstd::prelude::*;
use crate::error::FailureKind;

verus! {

/// What parsing a metadata document yields: `None` when the text is not a
/// valid document, otherwise the names of its world records, in order (an
/// absent or non-array `worlds` entry yields no names).  The result depends
/// on the document text alone.
pub uninterp spec fn parsed_worlds(s: Seq<char>) -> Option<Seq<Seq<char>>>;

/// Relies on `serde_json::from_str` and the `serde_json::Value` accessors
/// `get`, `as_array` and `as_str`: parsing a document and reading the `name`
/// fields of its `worlds` records is deterministic in the document text.
/// A record without a string `name` makes the document invalid.
#[verifier::external_body]
fn parse_world_names(s: &str) -> (r: Option<Vec<String>>)
    ensures
        r is Some <==> parsed_worlds(s@) is Some,
        r matches Some(names) ==> Some(names.deep_view()) == parsed_worlds(s@),
{
    let v: serde_json::Value = match serde_json::from_str(s) {
        Ok(v) => v,
        Err(_) => return None,
    };
    let mut names: Vec<String> = Vec::new();
    if let Some(arr) = v.get("worlds").and_then(|w| w.as_array()) {
        for w in arr {
            match w.get("name").and_then(|n| n.as_str()) {
                Some(n) => names.push(n.to_owned()),
                None => return None,
            }
        }
    }
    Some(names)
}

/// Select the world from the resolved list of names: the first one wins, and
/// an empty list means no world exists to resolve.
pub fn select_world(names: &Vec<String>) -> (r: Result<String, FailureKind>)
    ensures
        names@.len() > 0 ==> (r matches Ok(w) && w@ == names.deep_view()[0]),
        names@.len() == 0 ==> r == Result::<String, FailureKind>::Err(FailureKind::NoWorldFound),
{
    if names.len() > 0 {
        Ok(names[0].clone())
    } else {
        Err(FailureKind::NoWorldFound)
    }
}

/// Resolve the world name from a metadata document: parse it, then take the
/// first listed world.  Exactly the unparseable documents give `ParseError`,
/// and exactly the parseable ones without a world give `NoWorldFound`.
pub fn get_world_name(metadata: &str) -> (r: Result<String, FailureKind>)
    ensures
        parsed_worlds(metadata@) is None <==> r == Result::<String, FailureKind>::Err(
            FailureKind::ParseError,
        ),
        (parsed_worlds(metadata@) matches Some(ws) && ws.len() == 0) <==> r == Result::<
            String,
            FailureKind,
        >::Err(FailureKind::NoWorldFound),
        (parsed_worlds(metadata@) matches Some(ws) && ws.len() > 0) <==> (r matches Ok(w) && w@
            == parsed_worlds(metadata@).unwrap()[0]),
{
    match parse_world_names(metadata) {
        None => Err(FailureKind::ParseError),
        Some(names) => select_world(&names),
    }
}

} // verus!
