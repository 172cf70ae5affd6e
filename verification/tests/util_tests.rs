use face_verify::util::filename_from_image_path;

#[test]
fn bare_file_name_is_returned_unchanged() {
    assert_eq!(filename_from_image_path("alice.png"), "alice.png");
}

#[test]
fn file_name_follows_last_separator() {
    assert_eq!(filename_from_image_path("photos/ref/alice.png"), "alice.png");
    assert_eq!(filename_from_image_path("/home/user/x.jpg"), "x.jpg");
    assert_eq!(filename_from_image_path("a/b"), "b");
}

#[test]
fn trailing_separators_are_ignored() {
    assert_eq!(filename_from_image_path("photos/ref/"), "ref");
    assert_eq!(filename_from_image_path("photos/ref//"), "ref");
    assert_eq!(filename_from_image_path("photos/ref/."), "ref");
    assert_eq!(filename_from_image_path("photos/ref/./"), "ref");
    assert_eq!(filename_from_image_path("./alice.png"), "alice.png");
}

#[test]
fn dotted_names_are_plain_names() {
    assert_eq!(filename_from_image_path("a/b.c.d"), "b.c.d");
    assert_eq!(filename_from_image_path("a/..."), "...");
    assert_eq!(filename_from_image_path("a/.hidden"), ".hidden");
}
