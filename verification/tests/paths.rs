use retheme::paths::{relative_path_escapes, LocalPath};

#[test]
fn escaping_paths_follow_the_platform_rules() {
    for windows in [false, true] {
        assert!(relative_path_escapes("../x.mp4", windows));
        assert!(relative_path_escapes("a/../x.mp4", windows));
        assert!(relative_path_escapes("/etc/x", windows));
        assert!(!relative_path_escapes("media/x.mp4", windows));
        assert!(!relative_path_escapes("a..b/x", windows));
        assert!(!relative_path_escapes("./x.mp4", windows));
    }
    assert!(relative_path_escapes("..\\x.mp4", true));
    assert!(!relative_path_escapes("..\\x.mp4", false));
    assert!(relative_path_escapes("C:x.mp4", true));
    assert!(!relative_path_escapes("C:x.mp4", false));
    assert!(relative_path_escapes("\\x.mp4", true));
    assert!(!relative_path_escapes("\\x.mp4", false));
    assert!(!relative_path_escapes("1:x.mp4", true));
}

#[test]
fn paths_display_with_their_separator() {
    let windows = LocalPath { root: "C:\\".to_owned(), parts: vec!["a".to_owned(), "b".to_owned()] };
    assert!(windows.uses_backslash());
    assert_eq!(windows.display(), "C:\\a\\b");
    let unix = LocalPath { root: "/".to_owned(), parts: vec!["a".to_owned(), "b".to_owned()] };
    assert!(!unix.uses_backslash());
    assert_eq!(unix.display(), "/a/b");
    let root = LocalPath { root: "/".to_owned(), parts: Vec::new() };
    assert_eq!(root.display(), "/");
}
