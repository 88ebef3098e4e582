use zono::rspc::{Procedure, Router, RouterBuilder, VERSION};

#[test]
fn built_router_has_the_version_query() {
    let router = RouterBuilder::default().build();
    assert_eq!(router.queries, vec![("version".to_string(), Procedure::Version)]);
}

#[test]
fn version_query_answers_with_the_version() {
    let router = RouterBuilder::default().build();
    assert_eq!(VERSION, "0.1.0");
    assert_eq!(router.answer("version"), Some("0.1.0".to_string()));
    assert_eq!(Procedure::Version.run(), "0.1.0");
}

#[test]
fn unknown_query_has_no_answer() {
    let router = RouterBuilder::default().build();
    assert_eq!(router.answer("versions"), None);
    assert_eq!(router.answer("Version"), None);
    assert_eq!(router.answer(""), None);
    let empty = Router { queries: vec![] };
    assert_eq!(empty.answer("version"), None);
}

#[test]
fn first_query_of_a_name_answers() {
    let router = Router {
        queries: vec![
            ("about".to_string(), Procedure::Version),
            ("version".to_string(), Procedure::Version),
        ],
    };
    assert_eq!(router.answer("about"), Some(VERSION.to_string()));
    assert_eq!(router.answer("version"), Some(VERSION.to_string()));
}
