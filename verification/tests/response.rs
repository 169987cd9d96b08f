use rustball::response::{
    documents_string, get_json_string, json_error_string, json_string_from_doc_result,
    player_result_string, tag_update_string, CursorOutcome,
};

fn docs(items: &[Result<&str, &str>]) -> Vec<Result<String, String>> {
    items
        .iter()
        .map(|d| match d {
            Ok(t) => Ok(t.to_string()),
            Err(e) => Err(e.to_string()),
        })
        .collect()
}

#[test]
fn error_body() {
    assert_eq!(json_error_string("No team specified"), "{\"error\":\"No team specified\"}");
    assert_eq!(json_error_string(""), "{\"error\":\"\"}");
}

#[test]
fn query_error_is_reported() {
    assert_eq!(get_json_string(Err("connection refused".to_string())), "{\"error\":\"connection refused\"}");
}

#[test]
fn empty_cursor_is_invalid_team() {
    let outcome = CursorOutcome { has_next: Ok(false), documents: Vec::new() };
    assert_eq!(get_json_string(Ok(outcome)), "{\"error\":\"Invalid team\"}");
}

#[test]
fn cursor_error_is_reported() {
    let outcome = CursorOutcome { has_next: Err("cursor died".to_string()), documents: docs(&[Ok("{}")]) };
    assert_eq!(get_json_string(Ok(outcome)), "{\"error\":\"cursor died\"}");
}

#[test]
fn documents_are_listed_in_order() {
    let outcome = CursorOutcome {
        has_next: Ok(true),
        documents: docs(&[Ok("{\"a\":1}"), Ok("{\"b\":2}"), Ok("{\"c\":3}")]),
    };
    assert_eq!(get_json_string(Ok(outcome)), "{\"result\":[{\"a\":1},{\"b\":2},{\"c\":3}]}");
}

#[test]
fn single_document_list() {
    let outcome = CursorOutcome { has_next: Ok(true), documents: docs(&[Ok("{\"a\":1}")]) };
    assert_eq!(get_json_string(Ok(outcome)), "{\"result\":[{\"a\":1}]}");
}

#[test]
fn no_documents_after_has_next() {
    assert_eq!(documents_string(&Vec::new()), "{\"result\":[]}");
}

#[test]
fn first_failing_document_decides() {
    let outcome = CursorOutcome {
        has_next: Ok(true),
        documents: docs(&[Ok("{\"a\":1}"), Err("bad doc"), Ok("{\"c\":3}"), Err("later")]),
    };
    assert_eq!(get_json_string(Ok(outcome)), "{\"error\":\"bad doc\"}");
    assert_eq!(documents_string(&docs(&[Err("first"), Ok("{}")])), "{\"error\":\"first\"}");
}

#[test]
fn doc_result_conversion() {
    assert_eq!(json_string_from_doc_result(&Ok("{\"x\":1}".to_string())), Ok("{\"x\":1}".to_string()));
    assert_eq!(
        json_string_from_doc_result(&Err("oops".to_string())),
        Err("{\"error\":\"oops\"}".to_string())
    );
}

#[test]
fn player_replies() {
    assert_eq!(player_result_string(Ok(Some("{\"first_name\":\"David\"}".to_string()))),
        "{\"result\":{\"first_name\":\"David\"}}");
    assert_eq!(player_result_string(Ok(None)), "{}");
    assert_eq!(player_result_string(Err("timeout".to_string())), "{\"error\":\"timeout\"}");
}

#[test]
fn tag_update_replies() {
    assert_eq!(tag_update_string(Ok(())), "{\"result\":\"ok\"}");
    assert_eq!(tag_update_string(Err("write failed".to_string())), "{\"error\":\"write failed\"}");
}
