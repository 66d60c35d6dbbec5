use evox2_control::harden::{
    clean_known_folder, clean_windows_dir, is_safe_library_file_name, normalize_exe_path,
    path_is_under_prefixes, system32_library_path,
};

const SYSTEM_DIR: &str = r"C:\Windows\System32";

#[test]
fn system32_library_path_accepts_adl_name() {
    let path = system32_library_path(SYSTEM_DIR, "atiadlxx.dll").expect("safe name");
    assert!(
        path.to_ascii_lowercase()
            .ends_with(r"\system32\atiadlxx.dll"),
        "{path}"
    );
}

#[test]
fn system32_library_path_rejects_traversal() {
    assert_eq!(system32_library_path(SYSTEM_DIR, r"..\evil.dll"), None);
    assert_eq!(system32_library_path(SYSTEM_DIR, r"foo\bar.dll"), None);
    assert_eq!(system32_library_path(SYSTEM_DIR, ""), None);
    assert_eq!(system32_library_path(SYSTEM_DIR, "atiadlxx.dll.exe?"), None);
}

#[test]
fn normalize_exe_path_collapses_parent_dirs() {
    assert_eq!(
        normalize_exe_path(r"C:\Program Files\ec-su_axb35-win\..\..\Windows\System32\cmd.exe"),
        r"C:\Windows\System32\cmd.exe"
    );
    assert_eq!(
        normalize_exe_path(r#""C:\Program Files\ec-su_axb35-win\evox2-control.exe""#),
        r"C:\Program Files\ec-su_axb35-win\evox2-control.exe"
    );
}

#[test]
fn program_files_prefix_matches_install_dir_only() {
    let prefixes = vec![
        r"C:\Program Files".into(),
        r"C:\Program Files (x86)".into(),
    ];
    assert!(path_is_under_prefixes(
        r"C:\Program Files\ec-su_axb35-win\evox2-control.exe",
        &prefixes
    ));
    assert!(path_is_under_prefixes(
        r"C:\Program Files (x86)\ec-su_axb35-win\evox2-control.exe",
        &prefixes
    ));
    assert!(!path_is_under_prefixes(
        r"C:\Program Files\ec-su_axb35-win\..\..\Windows\System32\cmd.exe",
        &prefixes
    ));
    assert!(!path_is_under_prefixes(
        r"D:\Dev\projects\ec-su_axb35-win\dist\evox2-control.exe",
        &prefixes
    ));
    assert!(!path_is_under_prefixes(
        r"C:\Program Files foo\evox2-control.exe",
        &prefixes
    ));
}

#[test]
fn normalization_details() {
    assert_eq!(normalize_exe_path("  C:/A/./B//C/  "), r"C:\A\B\C");
    assert_eq!(normalize_exe_path(r"C:\..\..\x"), r"C:\x");
    assert_eq!(normalize_exe_path(r"rel\..\..\y"), "y");
    assert_eq!(normalize_exe_path(r#"""""#), "");
    assert!(!path_is_under_prefixes("", &[r"C:\".to_string()]));
    assert!(path_is_under_prefixes(r"c:\program files", &[r"C:\Program Files\".to_string()]));
    assert!(!path_is_under_prefixes(r"C:\x", &[r"\".to_string()]));
}

#[test]
fn safe_library_names() {
    assert!(is_safe_library_file_name("gdi32.dll"));
    assert!(is_safe_library_file_name("a_b-c.DLL"));
    assert!(!is_safe_library_file_name("a..b.dll"));
    assert!(!is_safe_library_file_name("a b.dll"));
    assert!(!is_safe_library_file_name("a/b.dll"));
}

#[test]
fn reported_directories_are_cleaned() {
    assert_eq!(clean_windows_dir("C:\\Windows\\\0\0", "X"), r"C:\Windows");
    assert_eq!(clean_windows_dir("\\\0", r"C:\Windows"), r"C:\Windows");
    assert_eq!(clean_known_folder(r"C:\Program Files\"), Some(r"C:\Program Files".to_string()));
    assert_eq!(clean_known_folder(r"\\"), None);
}
