use coldfusion_ls::path::patch_path_prefix;

#[test]
fn patch_path_prefix_works() {
    assert_eq!(
        patch_path_prefix(r"c:\foo\bar".into(), true),
        String::from(r"C:\foo\bar")
    );
    assert_eq!(
        patch_path_prefix(r"\\?\c:\foo\bar".into(), true),
        String::from(r"\\?\C:\foo\bar")
    );
}

#[test]
fn upper_case_drive_is_kept() {
    assert_eq!(patch_path_prefix(r"D:\x".into(), true), String::from(r"D:\x"));
}

#[test]
fn unix_path_is_unchanged() {
    assert_eq!(patch_path_prefix("/home/user/c:".into(), true), String::from("/home/user/c:"));
    assert_eq!(patch_path_prefix("".into(), true), String::new());
}

#[test]
fn verbatim_prefix_needs_a_drive() {
    assert_eq!(
        patch_path_prefix(r"\\?\UNC\server\share".into(), true),
        String::from(r"\\?\UNC\server\share")
    );
    assert_eq!(patch_path_prefix(r"\\?\c:".into(), true), String::from(r"\\?\C:"));
    assert_eq!(patch_path_prefix(r"\\?\c:x".into(), true), String::from(r"\\?\c:x"));
}

#[test]
fn non_letter_drive_is_unchanged() {
    assert_eq!(patch_path_prefix("1:foo".into(), true), String::from("1:foo"));
    assert_eq!(patch_path_prefix("é:foo".into(), true), String::from("é:foo"));
}

#[test]
fn paths_are_unchanged_off_windows() {
    assert_eq!(patch_path_prefix(r"c:\foo\bar".into(), false), String::from(r"c:\foo\bar"));
    assert_eq!(patch_path_prefix("c:x".into(), false), String::from("c:x"));
    assert_eq!(
        patch_path_prefix(r"\\?\c:\foo".into(), false),
        String::from(r"\\?\c:\foo")
    );
}
