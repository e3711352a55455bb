use file_manager::cache::FileCache;
use file_manager::entry::{build_file_entry, entry_le, sort_directory_contents, FileEntry};

fn plain(path: &str, is_dir: bool) -> FileEntry {
    build_file_entry(String::from(path), is_dir, 0, None, false)
}

#[test]
fn entry_getters_echo_their_parts() {
    let e = FileEntry::new(
        String::from("/d/Report.TXT"),
        String::from("Report.TXT"),
        false,
        String::from("1970.01.01 00:00"),
        String::from("1.0 KB"),
        true,
    );
    assert_eq!(e.path(), "/d/Report.TXT");
    assert_eq!(e.display_name(), "Report.TXT");
    assert!(!e.is_dir());
    assert!(!e.is_shortcut());
    assert_eq!(e.modified(), "1970.01.01 00:00");
    assert_eq!(e.size(), "1.0 KB");
    assert!(e.is_hidden());
    assert_eq!(e.extension(), "txt");
}

#[test]
fn built_entries_render_their_metadata() {
    let f = build_file_entry(String::from("/d/a.log"), false, 2048, Some(0), true);
    assert_eq!(f.display_name(), "a.log");
    assert_eq!(f.size(), "2.0 KB");
    assert_eq!(f.modified(), "1970.01.01 00:00");
    assert!(f.is_hidden());

    let d = build_file_entry(String::from("/d/sub"), true, 4096, None, false);
    assert_eq!(d.display_name(), "sub");
    assert_eq!(d.size(), "");
    assert_eq!(d.modified(), "Unknown");
    assert!(d.is_dir());
}

#[test]
fn listing_order_ranks_then_compares_keys() {
    let dir = plain("/d/zeta", true);
    let lnk = plain("/d/alpha.lnk", false);
    let txt = plain("/d/beta.txt", false);
    assert!(entry_le(&dir, &lnk));
    assert!(entry_le(&lnk, &txt));
    assert!(entry_le(&dir, &txt));
    assert!(!entry_le(&txt, &dir));
}

#[test]
fn sorting_puts_directories_then_shortcuts_then_files() {
    let mut files = vec![
        plain("/d/notes.txt", false),
        plain("/d/Pics", true),
        plain("/d/app.lnk", false),
        plain("/d/archive.zip", false),
        plain("/d/Docs", true),
    ];
    sort_directory_contents(&mut files);
    let names: Vec<String> = files.iter().map(|f| f.display_name()).collect();
    assert_eq!(names, vec!["Docs", "Pics", "app.lnk", "notes.txt", "archive.zip"]);
}

#[test]
fn sorting_ignores_ascii_case() {
    let mut files = vec![
        plain("/d/banana.txt", false),
        plain("/d/APPLE.TXT", false),
        plain("/d/Cherry.txt", false),
    ];
    sort_directory_contents(&mut files);
    let names: Vec<String> = files.iter().map(|f| f.display_name()).collect();
    assert_eq!(names, vec!["APPLE.TXT", "banana.txt", "Cherry.txt"]);
}

#[test]
fn sorting_orders_files_by_extension_first() {
    let mut files = vec![
        plain("/d/zzz.avi", false),
        plain("/d/aaa.zip", false),
        plain("/d/mmm.avi", false),
    ];
    sort_directory_contents(&mut files);
    let names: Vec<String> = files.iter().map(|f| f.display_name()).collect();
    assert_eq!(names, vec!["mmm.avi", "zzz.avi", "aaa.zip"]);
}

#[test]
fn sorting_keeps_every_entry() {
    let mut files = vec![
        plain("/d/b", false),
        plain("/d/a", false),
        plain("/d/a", false),
    ];
    sort_directory_contents(&mut files);
    assert_eq!(files.len(), 3);
    let names: Vec<String> = files.iter().map(|f| f.display_name()).collect();
    assert_eq!(names, vec!["a", "a", "b"]);
}

#[test]
fn cache_remembers_one_listing() {
    let mut cache = FileCache::new();
    assert!(cache.get_files().is_none());
    cache.update_cache(String::from("/d"), vec![plain("/d/a", false)]);
    let held = cache.get_files().expect("a listing is held");
    assert_eq!(held.len(), 1);
    assert_eq!(held[0].display_name(), "a");
    cache.clear();
    assert!(cache.get_files().is_none());
}
