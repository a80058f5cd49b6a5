use desktop_commands::path_kind::path_kind;

#[test]
fn a_directory_is_a_folder() {
    assert_eq!(path_kind(Ok(true)), Ok("folder".to_string()));
}

#[test]
fn anything_else_with_metadata_is_a_file() {
    assert_eq!(path_kind(Ok(false)), Ok("file".to_string()));
}

#[test]
fn the_two_kinds_have_different_names() {
    assert_ne!(path_kind(Ok(true)), path_kind(Ok(false)));
}

#[test]
fn a_failed_query_keeps_its_message() {
    let message = "No such file or directory (os error 2)";
    assert_eq!(path_kind(Err(message.to_string())), Err(message.to_string()));
}

#[test]
fn a_failed_query_is_never_turned_into_a_kind() {
    for message in ["", "folder", "file", "Permission denied (os error 13)"] {
        assert_eq!(path_kind(Err(message.to_string())), Err(message.to_string()));
    }
}
