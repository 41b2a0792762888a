use zarrista::group::{child_path, last_segment, parse_node_path, NodePathError};

#[test]
fn last_segment_of_paths() {
    assert_eq!(last_segment("/a/b"), "b");
    assert_eq!(last_segment("/a/b/"), "b");
    assert_eq!(last_segment("/temperature"), "temperature");
    assert_eq!(last_segment("/"), "");
    assert_eq!(last_segment("name"), "name");
    assert_eq!(last_segment(""), "");
}

#[test]
fn child_paths() {
    assert_eq!(child_path("/", "a"), "/a");
    assert_eq!(child_path("/a", "b"), "/a/b");
}

#[test]
fn node_paths() {
    assert_eq!(parse_node_path("/").unwrap(), "/");
    assert_eq!(parse_node_path("/a/b").unwrap(), "/a/b");
    for bad in ["a", "/a/", "/a//b", "/__meta", "/..", ""] {
        match parse_node_path(bad) {
            Err(NodePathError(given)) => assert_eq!(given, bad),
            Ok(_) => panic!("{bad} should be refused"),
        }
    }
    assert!(parse_node_path("/a.b").is_ok());
    assert!(parse_node_path("/_a").is_ok());
}
