use pucoti::bell::BellSource;
use pucoti::bell::choose_bell_source;

#[test]
fn no_configured_path_plays_the_embedded_clip() {
    let source = choose_bell_source(None, false);
    assert!(matches!(source, BellSource::Embedded));
}

#[test]
fn empty_path_plays_the_embedded_clip() {
    let source = choose_bell_source(Some(String::new()), true);
    assert!(matches!(source, BellSource::Embedded));
}

#[test]
fn missing_file_plays_the_embedded_clip() {
    let source = choose_bell_source(Some(String::from("/tmp/no-such-bell.ogg")), false);
    assert!(matches!(source, BellSource::Embedded));
}

#[test]
fn present_file_plays_the_configured_path() {
    let source = choose_bell_source(Some(String::from("/tmp/bell.ogg")), true);
    match source {
        BellSource::Custom(path) => assert_eq!(path, "/tmp/bell.ogg"),
        BellSource::Embedded => panic!("expected the configured path"),
    }
}
