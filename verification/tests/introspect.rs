use dylink::DylinkError;
use dylink::ImagePathSource;
use dylink::classify_image_name;
use dylink::resolve_image_path;

#[test]
fn test_nameless_image_is_unnamed() {
    assert!(matches!(classify_image_name(None), ImagePathSource::Unnamed));
}

#[test]
fn test_empty_name_stands_for_main_executable() {
    assert!(matches!(
        classify_image_name(Some(String::new())),
        ImagePathSource::MainExecutable
    ));
}

#[test]
fn test_nonempty_name_is_the_image_path() {
    match classify_image_name(Some("/usr/lib/libz.so".to_string())) {
        ImagePathSource::Named(p) => assert_eq!(p, "/usr/lib/libz.so"),
        other => panic!("expected a named path, got {other:?}"),
    }
}

#[test]
fn test_reverse_lookup_wins_when_available() {
    match resolve_image_path(Some("/lib/ld.so".to_string()), true) {
        Ok(ImagePathSource::Named(p)) => assert_eq!(p, "/lib/ld.so"),
        other => panic!("expected the looked-up path, got {other:?}"),
    }
}

#[test]
fn test_main_executable_is_special_cased() {
    assert!(matches!(
        resolve_image_path(None, true),
        Ok(ImagePathSource::MainExecutable)
    ));
}

#[test]
fn test_unnameable_image_path_not_found() {
    assert!(matches!(
        resolve_image_path(None, false),
        Err(DylinkError::NotFound)
    ));
}
