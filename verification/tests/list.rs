use b16m::failure::Failure;
use b16m::failure::List;
use b16m::list::list_of_decoded;
use b16m::list::parse_list;
use b16m::list::read_response;
use b16m::list::status_is_success;
use b16m::list::table_of_pairs;

fn text(s: &str) -> String {
    s.to_string()
}

#[test]
fn flow_mapping_decodes_to_its_two_entries() {
    let table = parse_list(List::Schemes, "{foo: bar, baz: qux}").unwrap();
    assert_eq!(table.len(), 2);
    assert_eq!(table.get("foo"), Some(&text("bar")));
    assert_eq!(table.get("baz"), Some(&text("qux")));
    assert!(table.get("Foo").is_none());
    assert!(table.get("bar").is_none());
}

#[test]
fn block_mapping_decodes_to_its_entries() {
    let body = "3024: https://github.com/0x3024/base16-3024-scheme-source\natelier: https://github.com/atelierbram/base16-atelier-schemes\n";
    let table = parse_list(List::Schemes, body).unwrap();
    assert_eq!(table.len(), 2);
    assert_eq!(
        table.get("3024"),
        Some(&text("https://github.com/0x3024/base16-3024-scheme-source"))
    );
    assert_eq!(
        table.get("atelier"),
        Some(&text("https://github.com/atelierbram/base16-atelier-schemes"))
    );
}

#[test]
fn empty_mapping_decodes_to_an_empty_list() {
    let table = parse_list(List::Templates, "{}").unwrap();
    assert_eq!(table.len(), 0);
}

#[test]
fn a_sequence_is_no_list() {
    match parse_list(List::Schemes, "- foo\n- bar\n") {
        Err(Failure::ParsingList { list, cause }) => {
            assert_eq!(list, List::Schemes);
            assert!(!cause.is_empty());
        }
        other => panic!("{:?}", other),
    }
}

#[test]
fn a_nested_mapping_is_no_list() {
    match parse_list(List::Templates, "foo: {bar: baz}") {
        Err(Failure::ParsingList { list, .. }) => assert_eq!(list, List::Templates),
        other => panic!("{:?}", other),
    }
}

#[test]
fn broken_yaml_is_no_list() {
    match parse_list(List::Schemes, "{foo: bar") {
        Err(Failure::ParsingList { list, .. }) => assert_eq!(list, List::Schemes),
        other => panic!("{:?}", other),
    }
}

#[test]
fn pairs_become_a_table() {
    let table = table_of_pairs(vec![(text("a"), text("1")), (text("b"), text("2"))]);
    assert_eq!(table.len(), 2);
    assert_eq!(table.get("a"), Some(&text("1")));
    assert_eq!(table.get("b"), Some(&text("2")));
}

#[test]
fn the_last_pair_of_a_name_counts() {
    let table = table_of_pairs(vec![
        (text("a"), text("1")),
        (text("b"), text("2")),
        (text("a"), text("3")),
    ]);
    assert_eq!(table.len(), 2);
    assert_eq!(table.get("a"), Some(&text("3")));
}

#[test]
fn no_pairs_become_an_empty_table() {
    assert_eq!(table_of_pairs(Vec::new()).len(), 0);
}

#[test]
fn decoded_pairs_become_the_list() {
    let table = list_of_decoded(List::Schemes, Ok(vec![(text("a"), text("1"))])).unwrap();
    assert_eq!(table.len(), 1);
    assert_eq!(table.get("a"), Some(&text("1")));
}

#[test]
fn a_decoding_error_becomes_a_parsing_failure() {
    match list_of_decoded(List::Templates, Err(text("expected a map"))) {
        Err(Failure::ParsingList { list, cause }) => {
            assert_eq!(list, List::Templates);
            assert_eq!(cause, "expected a map");
        }
        other => panic!("{:?}", other),
    }
}

#[test]
fn success_is_two_hundred_to_two_hundred_ninety_nine() {
    assert!(!status_is_success(0));
    assert!(!status_is_success(100));
    assert!(!status_is_success(199));
    assert!(status_is_success(200));
    assert!(status_is_success(204));
    assert!(status_is_success(299));
    assert!(!status_is_success(300));
    assert!(!status_is_success(304));
    assert!(!status_is_success(404));
    assert!(!status_is_success(500));
    assert!(!status_is_success(u16::MAX));
}

#[test]
fn a_successful_response_is_read_as_a_list() {
    let table = read_response(List::Schemes, 200, text("{foo: bar, baz: qux}")).unwrap();
    assert_eq!(table.len(), 2);
    assert_eq!(table.get("foo"), Some(&text("bar")));
    assert_eq!(table.get("baz"), Some(&text("qux")));
}

#[test]
fn a_refused_response_is_not_read_as_a_list() {
    match read_response(List::Schemes, 404, text("{foo: bar, baz: qux}")) {
        Err(Failure::Refused { list, status, body }) => {
            assert_eq!(list, List::Schemes);
            assert_eq!(status, 404);
            assert_eq!(body, "{foo: bar, baz: qux}");
        }
        other => panic!("{:?}", other),
    }
}

#[test]
fn a_server_error_is_refused() {
    match read_response(List::Templates, 503, text("unavailable")) {
        Err(Failure::Refused { list, status, body }) => {
            assert_eq!(list, List::Templates);
            assert_eq!(status, 503);
            assert_eq!(body, "unavailable");
        }
        other => panic!("{:?}", other),
    }
}

#[test]
fn a_successful_response_with_a_bad_body_fails_to_parse() {
    match read_response(List::Templates, 200, text("- not\n- a\n- mapping\n")) {
        Err(Failure::ParsingList { list, .. }) => assert_eq!(list, List::Templates),
        other => panic!("{:?}", other),
    }
}
