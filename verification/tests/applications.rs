use stream_q::applications::{list_applications, present_application_ids};

fn some(text: &str) -> Option<String> {
    Some(text.to_string())
}

#[test]
fn present_identifiers_are_kept_in_order() {
    let ids = present_application_ids(vec![some("app-b"), some("app-a"), some("app-c")]);
    assert_eq!(ids, vec!["app-b", "app-a", "app-c"]);
}

#[test]
fn entries_without_identifier_are_left_out() {
    let ids = present_application_ids(vec![None, some("one"), None, None, some("two"), None]);
    assert_eq!(ids, vec!["one", "two"]);
}

#[test]
fn repeated_identifiers_are_all_kept() {
    let ids = present_application_ids(vec![some("x"), some("x"), None, some("x")]);
    assert_eq!(ids, vec!["x", "x", "x"]);
}

#[test]
fn no_entries_give_no_identifiers() {
    assert_eq!(present_application_ids(Vec::new()), Vec::<String>::new());
    assert_eq!(present_application_ids(vec![None, None]), Vec::<String>::new());
}

#[test]
fn empty_identifier_is_present() {
    assert_eq!(present_application_ids(vec![some(""), None]), vec![""]);
}

#[test]
fn listing_gives_the_present_identifiers() {
    let listing = list_applications(Ok(Some(vec![some("a"), None, some("b")])));
    assert_eq!(listing, Ok(vec!["a".to_string(), "b".to_string()]));
}

#[test]
fn listing_without_list_is_empty() {
    assert_eq!(list_applications(Ok(None)), Ok(Vec::new()));
}

#[test]
fn listing_failure_keeps_the_cause() {
    let listing = list_applications(Err("AccessDeniedException: not allowed".to_string()));
    assert_eq!(listing, Err("AccessDeniedException: not allowed".to_string()));
}
