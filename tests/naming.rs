use flip::naming::{extension_of, output_path};

#[test]
fn extension_is_replaced() {
    assert_eq!(output_path(b"photos/cat.png"), b"photos/cat.gif".to_vec());
    assert_eq!(output_path(b"a.tar.gz"), b"a.tar.gif".to_vec());
}

#[test]
fn missing_extension_is_added() {
    assert_eq!(output_path(b"photo"), b"photo.gif".to_vec());
    assert_eq!(output_path(b"dir.d/photo"), b"dir.d/photo.gif".to_vec());
}

#[test]
fn leading_dot_is_no_extension() {
    assert_eq!(output_path(b".hidden"), b".hidden.gif".to_vec());
    assert_eq!(output_path(b"x/.hidden"), b"x/.hidden.gif".to_vec());
    assert_eq!(output_path(b"x/.hidden.jpg"), b"x/.hidden.gif".to_vec());
}

#[test]
fn non_utf8_bytes_are_kept() {
    assert_eq!(output_path(b"caf\xe9.png"), b"caf\xe9.gif".to_vec());
}

#[test]
fn extension_of_last_component() {
    assert_eq!(extension_of(b"photos/cat.png"), b"png".to_vec());
    assert_eq!(extension_of(b"a.tar.gz"), b"gz".to_vec());
    assert_eq!(extension_of(b"dir.d/photo"), b"".to_vec());
    assert_eq!(extension_of(b"x/.hidden"), b"".to_vec());
    assert_eq!(extension_of(b"x/.hidden.TGA"), b"TGA".to_vec());
    assert_eq!(extension_of(b"trailing."), b"".to_vec());
}
