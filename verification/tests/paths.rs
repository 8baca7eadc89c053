use win_redirect::paths::{join_path, project_name};

#[test]
fn project_name_of_windows_path() {
    assert_eq!(project_name("C:\\users\\dev\\app"), Some(String::from("app")));
}

#[test]
fn project_name_of_unix_path() {
    assert_eq!(project_name("a/b/c"), Some(String::from("c")));
}

#[test]
fn project_name_of_mixed_separators() {
    assert_eq!(project_name("C:\\x/y"), Some(String::from("y")));
}

#[test]
fn project_name_without_separator_is_whole_path() {
    assert_eq!(project_name("abc"), Some(String::from("abc")));
}

#[test]
fn project_name_of_trailing_separator_is_none() {
    assert_eq!(project_name("C:\\a\\"), None);
}

#[test]
fn project_name_of_empty_path_is_none() {
    assert_eq!(project_name(""), None);
}

#[test]
fn join_uses_backslash() {
    assert_eq!(join_path("c:\\b", "app"), String::from("c:\\b\\app"));
}

#[test]
fn join_keeps_both_parts_verbatim() {
    assert_eq!(join_path("c:\\staging", "my-project"), String::from("c:\\staging\\my-project"));
}
