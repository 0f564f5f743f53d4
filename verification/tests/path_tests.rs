use nur::path::{find_project_path, parent_of};

#[test]
fn test_find_project_path() {
    // The start directory itself holds the marker file.
    let marked = vec![String::from("/tmp/nur-project")];
    let actual = find_project_path("/tmp/nur-project", &marked).unwrap();
    assert_eq!(actual, String::from("/tmp/nur-project"));
}

#[test]
fn test_find_project_path_subdirectory() {
    // The marker sits in an ancestor of the start directory.
    let marked = vec![String::from("/tmp/nur-project")];
    let actual = find_project_path("/tmp/nur-project/sub", &marked).unwrap();
    assert_eq!(actual, String::from("/tmp/nur-project"));
}

#[test]
fn test_find_project_path_error() {
    // No ancestor holds the marker: nothing is found.
    let marked: Vec<String> = vec![];
    match find_project_path("/tmp/nur-project", &marked) {
        Some(_) => panic!("Expected an error, but got Ok"),
        None => (),
    }
}

#[test]
fn test_find_project_path_prefers_closest() {
    // Both an inner and an outer directory hold the marker: the one
    // closest to the start wins.
    let marked = vec![String::from("/a"), String::from("/a/b")];
    let actual = find_project_path("/a/b/c", &marked).unwrap();
    assert_eq!(actual, String::from("/a/b"));
}

#[test]
fn test_find_project_path_at_root() {
    let marked = vec![String::from("/")];
    let actual = find_project_path("/a/b", &marked).unwrap();
    assert_eq!(actual, String::from("/"));
}

#[test]
fn test_parent_of_walks_to_root() {
    assert_eq!(parent_of("/a/b/c").unwrap(), String::from("/a/b"));
    assert_eq!(parent_of("/a").unwrap(), String::from("/"));
    assert!(parent_of("/").is_none());
}
