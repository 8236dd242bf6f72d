use cli_transfer::paths::{resolve_destination, upload_remote_name, DestinationState};

#[test]
fn download_into_directory_with_trailing_separator() {
    let r = resolve_destination("photo.png", "/tmp/", DestinationState::Directory);
    assert_eq!(r, "/tmp/photo.png");
}

#[test]
fn download_into_directory_without_trailing_separator() {
    let r = resolve_destination("photo.png", "/tmp", DestinationState::Directory);
    assert_eq!(r, "/tmp/photo.png");
}

#[test]
fn download_onto_existing_file_overwrites_it() {
    let r = resolve_destination("photo.png", "/tmp/out.bin", DestinationState::RegularFile);
    assert_eq!(r, "/tmp/out.bin");
}

#[test]
fn download_to_missing_path_is_verbatim() {
    let r = resolve_destination("photo.png", "/tmp/out.bin", DestinationState::Missing);
    assert_eq!(r, "/tmp/out.bin");
}

#[test]
fn upload_name_of_relative_path() {
    assert_eq!(upload_remote_name("./notes.txt"), "notes.txt");
}

#[test]
fn upload_name_of_bare_file() {
    assert_eq!(upload_remote_name("notes.txt"), "notes.txt");
}

#[test]
fn upload_name_of_nested_path() {
    assert_eq!(upload_remote_name("/home/someone/docs/report.pdf"), "report.pdf");
}

#[test]
fn upload_name_ignores_trailing_separators() {
    assert_eq!(upload_remote_name("a/b/"), "b");
    assert_eq!(upload_remote_name("a/b///"), "b");
}

#[test]
fn upload_name_of_root_is_unknown() {
    assert_eq!(upload_remote_name("/"), "unknown");
}

#[test]
fn upload_name_of_empty_path_is_unknown() {
    assert_eq!(upload_remote_name(""), "unknown");
}

#[test]
fn upload_name_of_dot_components_is_unknown() {
    assert_eq!(upload_remote_name("."), "unknown");
    assert_eq!(upload_remote_name(".."), "unknown");
    assert_eq!(upload_remote_name("a/.."), "unknown");
}

#[test]
fn upload_name_skips_a_bare_dot_component() {
    assert_eq!(upload_remote_name("foo/."), "foo");
    assert_eq!(upload_remote_name("foo/./"), "foo");
}

#[test]
fn upload_name_keeps_hidden_files_and_many_dots() {
    assert_eq!(upload_remote_name(".hidden"), ".hidden");
    assert_eq!(upload_remote_name("..."), "...");
}
