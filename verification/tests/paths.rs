use std::path::{Path, PathBuf};

use tuicr::paths::{
    config_dir_from_parts, config_path_from_parts, join_path, themes_dir_from_parts, windows_join_path, ConfigDirError,
    Platform,
};

fn some(s: &str) -> Option<String> {
    Some(s.to_string())
}

#[test]
fn should_use_xdg_config_home_when_set() {
    let path = config_path_from_parts(some("/tmp/xdg-config"), some("/tmp/home"), None, Platform::Unix)
        .expect("config path should resolve");

    assert_eq!(PathBuf::from(path), PathBuf::from("/tmp/xdg-config/tuicr/config.toml"));
}

#[test]
fn should_fallback_to_home_dot_config_when_xdg_unset() {
    let path = config_path_from_parts(None, some("/home/tester"), None, Platform::Unix).expect("config path should resolve");

    assert_eq!(PathBuf::from(path), PathBuf::from("/home/tester/.config/tuicr/config.toml"));
}

#[test]
fn should_ignore_empty_xdg_config_home() {
    let path = config_path_from_parts(some(""), some("/home/tester"), None, Platform::Unix).expect("config path should resolve");

    assert_eq!(PathBuf::from(path), PathBuf::from("/home/tester/.config/tuicr/config.toml"));
}

#[test]
fn should_append_tuicr_config_toml_suffix() {
    let path = config_path_from_parts(some("/tmp/xdg-config"), some("/tmp/home"), None, Platform::Unix)
        .expect("config path should resolve");

    assert!(Path::new(&path).ends_with(Path::new("tuicr").join("config.toml")));
}

#[test]
fn should_use_xdg_themes_dir_when_set() {
    let path = themes_dir_from_parts(some("/tmp/xdg-config"), some("/tmp/home"), None, Platform::Unix)
        .expect("themes dir should resolve");

    assert_eq!(PathBuf::from(path), PathBuf::from("/tmp/xdg-config/tuicr/themes"));
}

#[test]
fn should_fallback_to_home_dot_config_themes_dir_when_xdg_unset() {
    let path = themes_dir_from_parts(None, some("/home/tester"), None, Platform::Unix).expect("themes dir should resolve");

    assert_eq!(PathBuf::from(path), PathBuf::from("/home/tester/.config/tuicr/themes"));
}

#[test]
fn config_dir_fails_without_home_or_xdg() {
    assert_eq!(config_dir_from_parts(None, None, None, Platform::Unix), Err(ConfigDirError::NoHome));
    assert_eq!(config_dir_from_parts(some(""), some(""), None, Platform::Unix), Err(ConfigDirError::NoHome));
    assert_eq!(config_path_from_parts(None, None, None, Platform::Unix), Err(ConfigDirError::NoHome));
    assert_eq!(themes_dir_from_parts(some(""), None, None, Platform::Unix), Err(ConfigDirError::NoHome));
}

#[test]
fn config_dir_is_tuicr_under_the_base() {
    assert_eq!(config_dir_from_parts(some("/x"), some("/h"), None, Platform::Unix), Ok("/x/tuicr".to_string()));
    assert_eq!(config_dir_from_parts(None, some("/h"), None, Platform::Unix), Ok("/h/.config/tuicr".to_string()));
}

#[test]
fn xdg_wins_whatever_home_is() {
    let with_home = config_path_from_parts(some("/x"), some("/h"), None, Platform::Unix);
    let without_home = config_path_from_parts(some("/x"), None, None, Platform::Unix);
    assert_eq!(with_home, without_home);
    assert_eq!(with_home, Ok("/x/tuicr/config.toml".to_string()));
}

#[test]
fn join_puts_one_separator_between_parts() {
    assert_eq!(join_path("/a", "b"), "/a/b");
    assert_eq!(join_path("/a/", "b"), "/a/b");
    assert_eq!(join_path("", "b"), "b");
    assert_eq!(config_path_from_parts(some("/x/"), None, None, Platform::Unix), Ok("/x/tuicr/config.toml".to_string()));
}

#[test]
fn config_file_and_themes_share_the_directory() {
    let dir = config_dir_from_parts(None, some("/home/u"), None, Platform::Unix).expect("dir");
    let file = config_path_from_parts(None, some("/home/u"), None, Platform::Unix).expect("file");
    let themes = themes_dir_from_parts(None, some("/home/u"), None, Platform::Unix).expect("themes");
    assert_eq!(file, format!("{dir}/config.toml"));
    assert_eq!(themes, format!("{dir}/themes"));
    assert!(dir.ends_with("/tuicr"));
}

#[test]
fn should_use_windows_appdata_base_dir() {
    let path = config_path_from_parts(
        some(r"C:\xdg\ignored"),
        some(r"C:\Users\tester"),
        some(r"C:\Users\tester\AppData\Roaming"),
        Platform::Windows,
    )
    .expect("config path should resolve");

    assert_eq!(path, r"C:\Users\tester\AppData\Roaming\tuicr\config.toml");
}

#[test]
fn should_use_windows_appdata_themes_dir() {
    let path = themes_dir_from_parts(
        some(r"C:\xdg\ignored"),
        some(r"C:\Users\tester"),
        some(r"C:\Users\tester\AppData\Roaming"),
        Platform::Windows,
    )
    .expect("themes dir should resolve");

    assert_eq!(path, r"C:\Users\tester\AppData\Roaming\tuicr\themes");
}

#[test]
fn windows_needs_a_nonempty_appdata() {
    assert_eq!(
        config_dir_from_parts(some("/x"), some("/h"), None, Platform::Windows),
        Err(ConfigDirError::NoAppData)
    );
    assert_eq!(
        config_path_from_parts(some("/x"), some("/h"), some(""), Platform::Windows),
        Err(ConfigDirError::NoAppData)
    );
}

#[test]
fn windows_join_follows_separators_and_drives() {
    assert_eq!(windows_join_path(r"C:\a", "b"), r"C:\a\b");
    assert_eq!(windows_join_path(r"C:\a\", "b"), r"C:\a\b");
    assert_eq!(windows_join_path("C:/a/", "b"), "C:/a/b");
    assert_eq!(windows_join_path("C:", "b"), "C:b");
    assert_eq!(windows_join_path("", "b"), "b");
    assert_eq!(windows_join_path(r"\\?\C:", "tuicr"), r"\\?\C:tuicr");
    assert_eq!(windows_join_path(r"\\?\C:\", "tuicr"), r"\\?\C:\tuicr");
    assert_eq!(windows_join_path(r"\\?\C:\a/", "b"), r"\\?\C:\a/\b");
    assert_eq!(windows_join_path(r"\\?\UNC\srv\share", "b"), r"\\?\UNC\srv\share\b");
    assert_eq!(config_dir_from_parts(None, None, some("D:"), Platform::Windows), Ok("D:tuicr".to_string()));
}
