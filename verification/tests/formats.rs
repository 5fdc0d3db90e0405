use drag_n_drop::path::TexPath;
use drag_n_drop::path::extension_of;
use drag_n_drop::path::is_supported_texture_path;

fn path(s: &str) -> TexPath {
    TexPath::new(s.as_bytes().to_vec())
}

fn supported(s: &str) -> bool {
    is_supported_texture_path(&path(s))
}

#[test]
fn supported_formats_are_accepted() {
    assert!(supported("photo.png"));
    assert!(supported("pic.jpeg"));
    assert!(supported("pic.jpg"));
    assert!(supported("assets/images/photo.png"));
}

#[test]
fn case_is_ignored() {
    assert!(supported("photo.PNG"));
    assert!(supported("pic.Jpeg"));
    assert!(supported("PIC.JPG"));
}

#[test]
fn extension_containing_a_format_counts() {
    assert!(supported("odd.jpgx"));
    assert!(supported("odd.apng"));
}

#[test]
fn unsupported_extensions_are_rejected() {
    assert!(!supported("texture.bmp"));
    assert!(!supported("archive.gz"));
    assert!(!supported("clip.gif"));
}

#[test]
fn missing_or_hidden_extensions_are_rejected() {
    assert!(!supported("noext"));
    assert!(!supported(""));
    assert!(!supported(".png"));
    assert!(!supported("dir/.png"));
    assert!(!supported("ends."));
    assert!(!supported("dir.png/file"));
}

#[test]
fn extension_is_the_part_after_the_last_dot_of_the_file_name() {
    assert_eq!(extension_of(&path("a.tar.gz")), Some(b"gz".to_vec()));
    assert_eq!(extension_of(&path("dir.d/plain")), None);
    assert_eq!(extension_of(&path("dir.d/x.png")), Some(b"png".to_vec()));
    assert_eq!(extension_of(&path("ends.")), Some(b"".to_vec()));
    assert_eq!(extension_of(&path(".hidden")), None);
}

#[test]
fn tex_path_clone_keeps_bytes() {
    let p = path("keep/me.png");
    let q = p.clone();
    assert_eq!(q.as_bytes(), &b"keep/me.png".to_vec());
}
