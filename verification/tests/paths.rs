use file_manager::paths::{
    extension_lower, extension_raw, file_name, is_attr_hidden, is_dot_hidden, join, parent,
    paste_destination, resolve_shortcut, PathExt,
};

#[test]
fn file_name_is_the_last_component() {
    assert_eq!(file_name("/home/user/docs"), "docs");
    assert_eq!(file_name("C:\\Users\\me\\file.txt"), "file.txt");
    assert_eq!(file_name("plain"), "plain");
    assert_eq!(file_name("/trailing/"), "");
}

#[test]
fn parent_stops_at_the_root() {
    assert_eq!(parent("/home/user"), Some(String::from("/home")));
    assert_eq!(parent("/home"), Some(String::from("/")));
    assert_eq!(parent("C:\\Users"), Some(String::from("C:")));
    assert_eq!(parent("plain"), None);
}

#[test]
fn join_inserts_one_separator() {
    assert_eq!(join("/home", "user"), "/home/user");
    assert_eq!(join("/home/", "user"), "/home/user");
    assert_eq!(join("C:\\", "Users"), "C:\\Users");
    assert_eq!(join("", "x"), "/x");
}

#[test]
fn extensions_come_lowered() {
    assert_eq!(extension_lower("/a/REPORT.TXT"), "txt");
    assert_eq!(extension_raw("/a/REPORT.TXT"), "TXT");
    assert_eq!(extension_lower("/a/archive.tar.gz"), "gz");
    assert_eq!(extension_lower("/a/noext"), "");
    assert_eq!(extension_lower("/a/.hidden"), "");
    assert_eq!(extension_lower("/a.dir/noext"), "");
}

#[test]
fn shortcuts_are_lnk_in_any_case() {
    assert!(String::from("C:\\x\\note.lnk").is_shortcut());
    assert!(String::from("C:\\x\\note.LNK").is_shortcut());
    assert!(!String::from("C:\\x\\note.txt").is_shortcut());
    assert!(!String::from("C:\\x\\lnk").is_shortcut());
    assert!(!String::from("C:\\x\\.lnk").is_shortcut());
}

#[test]
fn dotfiles_count_as_hidden() {
    assert!(is_dot_hidden(".bashrc"));
    assert!(!is_dot_hidden("bashrc"));
    assert!(!is_dot_hidden(""));
}

#[test]
fn the_hidden_attribute_is_bit_one() {
    assert!(is_attr_hidden(0x2));
    assert!(is_attr_hidden(0x12));
    assert!(!is_attr_hidden(0x1));
    assert!(!is_attr_hidden(0));
}

#[test]
fn shortcut_resolution_needs_the_platform() {
    assert_eq!(resolve_shortcut(&String::from("C:\\x\\note.lnk")), None);
}

#[test]
fn paste_lands_in_the_viewed_directory() {
    assert_eq!(paste_destination("/home/user", "/tmp/copied.txt"), "/home/user/copied.txt");
    assert_eq!(paste_destination("/home/user/", "/tmp/copied.txt"), "/home/user/copied.txt");
}
