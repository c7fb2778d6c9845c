use kafu::labels::{override_pod_image, sanitize_label_value, MissingImageField};

#[test]
fn sanitize_label_value_valid() {
    assert_eq!(sanitize_label_value("basic"), "basic");
    assert_eq!(sanitize_label_value("my-app"), "my-app");
    assert_eq!(sanitize_label_value("a"), "a");
}

#[test]
fn sanitize_label_value_invalid_chars() {
    assert_eq!(sanitize_label_value("my app"), "my-app");
    assert_eq!(sanitize_label_value("foo/bar"), "foo-bar");
}

#[test]
fn sanitize_label_value_empty_fallback() {
    assert_eq!(sanitize_label_value(""), "default");
    assert_eq!(sanitize_label_value("---"), "default");
}

#[test]
fn sanitize_label_value_truncate() {
    let long = "a".repeat(70);
    let got = sanitize_label_value(&long);
    assert!(got.len() <= 63);
    assert!(!got.is_empty());
}

#[test]
fn sanitize_label_value_trims_and_cuts_exactly() {
    assert_eq!(sanitize_label_value("._x.y_-"), "x.y");
    let mut s = "b".repeat(62);
    s.push_str("-cd");
    assert_eq!(sanitize_label_value(&s), "b".repeat(62));
    assert_eq!(sanitize_label_value("é"), "default");
}

#[test]
fn override_pod_image_replaces_first_image_line() {
    let pod = "spec:\n  containers:\n    - name: kafu\n      image: old:1\n      image: keep\n";
    let got = override_pod_image(pod, "ghcr.io/x/kafu:2").unwrap();
    assert_eq!(got, "spec:\n  containers:\n    - name: kafu\n      image: ghcr.io/x/kafu:2\n      image: keep\n");
}

#[test]
fn override_pod_image_normalises_line_ends() {
    let got = override_pod_image("a\r\nimage: x", "y").unwrap();
    assert_eq!(got, "a\nimage: y\n");
}

#[test]
fn override_pod_image_without_image_field() {
    assert_eq!(override_pod_image("kind: Pod\n", "y"), Err(MissingImageField));
}
