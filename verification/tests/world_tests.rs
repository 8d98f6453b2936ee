use wit_inspect::error::FailureKind;
use wit_inspect::world::{get_world_name, select_world};

#[test]
fn first_listed_world_wins() {
    let doc = "{\"worlds\":[{\"name\":\"a\"},{\"name\":\"b\"}]}";
    assert_eq!(get_world_name(doc), Ok("a".to_string()));
}

#[test]
fn empty_world_list_is_no_world_found() {
    let doc = "{\"worlds\":[]}";
    assert_eq!(get_world_name(doc), Err(FailureKind::NoWorldFound));
}

#[test]
fn absent_world_list_is_no_world_found() {
    assert_eq!(get_world_name("{}"), Err(FailureKind::NoWorldFound));
}

#[test]
fn invalid_document_is_parse_error() {
    assert_eq!(get_world_name("not json at all"), Err(FailureKind::ParseError));
    assert_eq!(get_world_name("{\"worlds\":["), Err(FailureKind::ParseError));
}

#[test]
fn record_without_name_is_parse_error() {
    let doc = "{\"worlds\":[{\"label\":\"a\"}]}";
    assert_eq!(get_world_name(doc), Err(FailureKind::ParseError));
}

#[test]
fn single_world_resolves() {
    let doc = "{\"worlds\":[{\"name\":\"root\"}],\"interfaces\":[]}";
    assert_eq!(get_world_name(doc), Ok("root".to_string()));
}

#[test]
fn select_world_picks_the_first() {
    let names = vec!["a".to_string(), "b".to_string()];
    assert_eq!(select_world(&names), Ok("a".to_string()));
    let none: Vec<String> = Vec::new();
    assert_eq!(select_world(&none), Err(FailureKind::NoWorldFound));
}
