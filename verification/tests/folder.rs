use session_signals::folder::{file_manager, reveal_dir};
use session_signals::label::Platform;

#[test]
fn file_manager_is_platform_appropriate() {
    assert_eq!(file_manager(Platform::Windows), "explorer");
    assert_eq!(file_manager(Platform::MacOs), "open");
    assert_eq!(file_manager(Platform::Other), "xdg-open");
}

#[test]
fn reveal_dir_rejects_a_missing_path() {
    let out = reveal_dir("/nowhere/at/all", false, Platform::Other);
    assert_eq!(out, Err("/nowhere/at/all does not exist".to_string()));
}

#[test]
fn reveal_dir_rejects_a_file() {
    // A file is no directory either.
    let out = reveal_dir("/tmp/not-a-dir.txt", false, Platform::Windows);
    assert!(out.is_err());
}

#[test]
fn a_folder_is_shown_by_the_file_manager() {
    assert_eq!(reveal_dir("/tmp", true, Platform::MacOs), Ok("open"));
}
