use desktop_probe::exe_path::{in_system_apps, owner_name, owner_part};

fn units_of(text: &str) -> Vec<u16> {
    text.encode_utf16().collect()
}

fn owner_of(path: &str) -> String {
    owner_name(&units_of(path))
}

#[test]
fn executable_under_system_apps_is_the_systems() {
    let path = units_of(
        "C:\\Windows\\SystemApps\\Microsoft.Windows.StartMenuExperienceHost_cw5n1h2txyewy\\StartMenuExperienceHost.exe",
    );
    assert!(in_system_apps(&path));
}

#[test]
fn the_system_apps_directory_itself_is_the_systems() {
    assert!(in_system_apps(&units_of("C:\\Windows\\SystemApps")));
    assert!(in_system_apps(&units_of("C:\\Windows\\SystemApps\\")));
}

#[test]
fn drive_letter_counts_in_either_case() {
    assert!(in_system_apps(&units_of("c:\\Windows\\SystemApps\\a.exe")));
}

#[test]
fn names_count_as_written() {
    assert!(!in_system_apps(&units_of("C:\\windows\\systemapps\\a.exe")));
    assert!(!in_system_apps(&units_of("C:\\Windows\\SystemApp\\a.exe")));
    assert!(!in_system_apps(&units_of("C:\\Windows\\SystemAppsX\\a.exe")));
    assert!(!in_system_apps(&units_of("C:\\WindowsX\\SystemApps\\a.exe")));
}

#[test]
fn both_separators_and_repeats_are_read() {
    assert!(in_system_apps(&units_of("C:/Windows/SystemApps/a.exe")));
    assert!(in_system_apps(&units_of("C:\\\\Windows\\\\SystemApps\\a.exe")));
    assert!(in_system_apps(&units_of("C:\\.\\Windows\\.\\SystemApps\\a.exe")));
}

#[test]
fn other_places_are_not_the_systems() {
    assert!(!in_system_apps(&units_of("C:\\Windows\\System32\\notepad.exe")));
    assert!(!in_system_apps(&units_of("D:\\Windows\\SystemApps\\a.exe")));
    assert!(!in_system_apps(&units_of("C:\\Users\\Windows\\SystemApps\\a.exe")));
    assert!(!in_system_apps(&units_of("C:\\Windows")));
    assert!(!in_system_apps(&units_of("C:\\Windows\\..\\SystemApps")));
}

#[test]
fn path_without_drive_or_root_is_not_the_systems() {
    assert!(!in_system_apps(&units_of("\\Windows\\SystemApps\\a.exe")));
    assert!(!in_system_apps(&units_of("Windows\\SystemApps\\a.exe")));
    assert!(!in_system_apps(&units_of("C:Windows\\SystemApps\\a.exe")));
    assert!(!in_system_apps(&units_of("")));
    assert!(!in_system_apps(&units_of("C:")));
    assert!(!in_system_apps(&units_of("C:\\")));
}

#[test]
fn owner_is_the_file_stem() {
    assert_eq!(owner_of("C:\\Windows\\System32\\notepad.exe"), "notepad");
    assert_eq!(owner_of("C:\\Program Files\\Mozilla Firefox\\firefox.exe"), "firefox");
    assert_eq!(owner_of("D:/tools/archiver.tar.exe"), "archiver.tar");
}

#[test]
fn owner_without_extension_is_the_file_name() {
    assert_eq!(owner_of("C:\\bin\\server"), "server");
    assert_eq!(owner_of("server"), "server");
}

#[test]
fn leading_dot_is_no_extension() {
    assert_eq!(owner_of("C:\\home\\.profile"), ".profile");
    assert_eq!(owner_of("C:\\home\\.profile.bak"), ".profile");
}

#[test]
fn trailing_dot_is_an_empty_extension() {
    assert_eq!(owner_of("C:\\bin\\tool."), "tool");
}

#[test]
fn trailing_separator_and_dot_name_do_not_count() {
    assert_eq!(owner_of("C:\\bin\\tool.exe\\"), "tool");
    assert_eq!(owner_of("C:\\bin\\tool.exe\\."), "tool");
}

#[test]
fn drive_relative_file_is_named() {
    assert_eq!(owner_of("C:tool.exe"), "tool");
}

#[test]
fn path_that_names_no_file_is_its_own_owner() {
    assert_eq!(owner_of(""), "");
    assert_eq!(owner_of("C:\\"), "C:\\");
    assert_eq!(owner_of("C:"), "C:");
    assert_eq!(owner_of("C:\\bin\\.."), "C:\\bin\\..");
    assert_eq!(owner_of("\\\\"), "\\\\");
}

#[test]
fn owner_part_is_a_range_of_the_path() {
    let path = units_of("C:\\a\\bc.d");
    assert_eq!(owner_part(&path), &path[5..7]);
    let bare = units_of("C:\\");
    assert_eq!(owner_part(&bare), &bare[..]);
}

#[test]
fn ill_formed_units_in_the_owner_are_replaced() {
    let mut path = units_of("C:\\x\\a");
    path.push(0xD800);
    path.extend(units_of("b.exe"));
    assert_eq!(owner_name(&path), "a\u{FFFD}b");
}
