use nearby_images::extension::{
    extension_of_file_name, is_allowed_extension, is_image, same_text,
};

#[test]
fn every_listed_extension_is_allowed() {
    let all = [
        "apng", "png", "avif", "jpg", "jpeg", "jfif", "pjpeg", "pjp", "svg", "webp", "bmp",
        "ico", "cur", "tif", "tiff",
    ];
    for ext in all {
        assert!(is_allowed_extension(ext), "{}", ext);
    }
}

#[test]
fn other_extensions_are_not_allowed() {
    for ext in ["txt", "gif", "", "pn", "pngg", "jp", "tifff", "heic", "pdf", ".png"] {
        assert!(!is_allowed_extension(ext), "{}", ext);
    }
}

#[test]
fn allowed_extension_is_taken_as_written() {
    assert!(!is_allowed_extension("PNG"));
    assert!(!is_allowed_extension("Jpg"));
}

#[test]
fn same_text_compares_whole_texts() {
    assert!(same_text("png", "png"));
    assert!(same_text("", ""));
    assert!(!same_text("png", "pnG"));
    assert!(!same_text("png", "pn"));
    assert!(!same_text("", "p"));
    assert!(same_text("bäume", "bäume"));
    assert!(!same_text("bäume", "baume"));
}

#[test]
fn image_paths_are_recognised() {
    assert!(is_image("a.jpg"));
    assert!(is_image("/pics/a.jpg"));
    assert!(is_image("/pics/holiday.2024.webp"));
    assert!(is_image("relative/dir/icon.ico"));
    assert!(is_image("/pics/archive.tar.png"));
}

#[test]
fn upper_case_extension_is_an_image() {
    assert!(is_image("photo.PNG"));
    assert!(is_image("/pics/c.PNG"));
    assert!(is_image("/pics/scan.JpEg"));
    assert!(is_image("/pics/scan.TIFF"));
}

#[test]
fn other_files_are_no_images() {
    assert!(!is_image("/pics/b.txt"));
    assert!(!is_image("/pics/movie.mp4"));
    assert!(!is_image("/pics/png"));
    assert!(!is_image("/pics/a.png.bak"));
}

#[test]
fn file_without_extension_is_no_image() {
    assert!(!is_image("README"));
    assert!(!is_image("/pics/README"));
    assert!(!is_image(""));
    assert!(!is_image("/"));
    assert!(!is_image("/pics/.."));
}

#[test]
fn name_of_a_dot_and_an_extension_is_an_image() {
    assert!(is_image(".png"));
    assert!(is_image("/pics/.jpg"));
    assert!(is_image("/pics/.PNG"));
    assert!(is_image("/pics/.hidden.jpg"));
    assert!(!is_image("/pics/.bashrc"));
}

#[test]
fn extension_is_what_follows_the_last_dot() {
    assert_eq!(extension_of_file_name("a.jpg"), Some("jpg".to_string()));
    assert_eq!(extension_of_file_name("c.PNG"), Some("PNG".to_string()));
    assert_eq!(extension_of_file_name("archive.tar.gz"), Some("gz".to_string()));
    assert_eq!(extension_of_file_name(".png"), Some("png".to_string()));
    assert_eq!(extension_of_file_name("..png"), Some("png".to_string()));
    assert_eq!(extension_of_file_name("notes."), Some(String::new()));
    assert_eq!(extension_of_file_name("."), Some(String::new()));
    assert_eq!(extension_of_file_name("bäume.jpég"), Some("jpég".to_string()));
}

#[test]
fn name_without_dot_has_no_extension() {
    assert_eq!(extension_of_file_name("README"), None);
    assert_eq!(extension_of_file_name(""), None);
    assert_eq!(extension_of_file_name("png"), None);
}

#[test]
fn empty_extension_is_no_image() {
    assert!(!is_image("/pics/photo."));
}

#[test]
fn extension_is_that_of_the_file_name() {
    assert!(!is_image("/pics.png/notes"));
    assert!(is_image("/pics.d/a.png"));
}

#[test]
fn trailing_separator_is_no_part_of_the_name() {
    assert!(is_image("/pics/a.png/"));
    assert!(!is_image("/pics/notes.txt/"));
}

#[test]
fn letters_outside_ascii_are_lowered_too() {
    assert!(!is_image("/pics/a.JPÉG"));
    assert!(!is_image("/pics/a.ＰＮＧ"));
}
