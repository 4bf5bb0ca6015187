use machine_factory::naming::{handler_ident, join_name};

#[test]
fn handler_ident_joins_snake_cased_names() {
    assert_eq!(handler_ident("RedLight", "TimeoutEvent"), "handle__red_light__timeout_event");
}

#[test]
fn a_handler_name_joins_its_two_parts() {
    assert_eq!(join_name("red_light", "timeout"), "handle__red_light__timeout");
    assert_eq!(join_name("", ""), "handle____");
    assert_eq!(handler_ident("HTTPRequest", "a_b"), join_name("http_request", "a_b"));
}
