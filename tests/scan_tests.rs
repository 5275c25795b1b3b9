use moduflow::icons::{extension_of, get_icon_path, IconSet};
use moduflow::scan::{
    build_level, next_budget, read_directory_contents, read_directory_structure, DirectoryItem,
    RawEntry, RawKind, ScanError,
};

fn icons() -> IconSet {
    IconSet::new(
        "../public/assets".to_string(),
        vec!["pdf.svg".to_string(), "rs.svg".to_string(), "folder.svg".to_string()],
    )
}

fn file(name: &str) -> RawEntry {
    RawEntry { name: name.to_string(), path: format!("/root/{}", name), kind: RawKind::File }
}

fn dir(name: &str, nonempty: bool, listing: Option<Vec<RawEntry>>) -> RawEntry {
    RawEntry {
        name: name.to_string(),
        path: format!("/root/{}", name),
        kind: RawKind::Directory { nonempty, listing },
    }
}

fn unreadable(name: &str) -> RawEntry {
    RawEntry { name: name.to_string(), path: format!("/root/{}", name), kind: RawKind::Unreadable }
}

fn names(items: &[DirectoryItem]) -> Vec<String> {
    items.iter().map(|i| i.name.clone()).collect()
}

#[test]
fn icon_for_known_extension() {
    assert_eq!(get_icon_path(&icons(), false, "report.pdf"), "../public/assets/pdf.svg");
}

#[test]
fn icon_for_unknown_extension() {
    assert_eq!(get_icon_path(&icons(), false, "data.xyz123"), "../public/assets/unknown.svg");
}

#[test]
fn icon_for_name_without_extension() {
    assert_eq!(get_icon_path(&icons(), false, "Makefile"), "../public/assets/unknown.svg");
}

#[test]
fn icon_for_directory_ignores_name() {
    assert_eq!(get_icon_path(&icons(), true, "report.pdf"), "../public/assets/folder.svg");
    assert_eq!(get_icon_path(&icons(), true, "src"), "../public/assets/folder.svg");
}

#[test]
fn icon_root_with_trailing_separator() {
    let set = IconSet::new("assets/".to_string(), vec!["rs.svg".to_string()]);
    assert_eq!(get_icon_path(&set, false, "main.rs"), "assets/rs.svg");
}

#[test]
fn icon_extension_uses_last_dot() {
    let set = IconSet::new("a".to_string(), vec!["gz.svg".to_string(), "tar.svg".to_string()]);
    assert_eq!(get_icon_path(&set, false, "x.tar.gz"), "a/gz.svg");
}

#[test]
fn extension_cases() {
    assert_eq!(extension_of("archive.tar.gz"), "gz");
    assert_eq!(extension_of("README"), "");
    assert_eq!(extension_of(".bashrc"), "bashrc");
    assert_eq!(extension_of("trailing."), "");
    assert_eq!(extension_of(""), "");
}

#[test]
fn contains_checks_asset_names() {
    let set = icons();
    assert!(set.contains(&"pdf.svg".to_string()));
    assert!(!set.contains(&"pdf".to_string()));
}

#[test]
fn depth_zero_lists_direct_children_unexpanded() {
    let listing = vec![
        file("a.rs"),
        dir("src", true, Some(vec![file("lib.rs")])),
        dir("empty", false, None),
    ];
    let items = read_directory_structure(&icons(), true, &Some(listing), Some(0)).ok().unwrap();
    assert_eq!(names(&items), vec!["a.rs", "src", "empty"]);
    assert!(items.iter().all(|i| i.children.is_none()));
    assert_eq!(items[0].path, "/root/a.rs");
    assert_eq!(items[0].icon, "../public/assets/rs.svg");
    assert!(!items[0].is_dir);
    assert!(!items[0].has_children);
    assert!(items[1].is_dir);
    assert!(items[1].has_children);
    assert_eq!(items[1].icon, "../public/assets/folder.svg");
    assert!(!items[2].has_children);
}

#[test]
fn contents_equals_depth_zero() {
    let listing = vec![file("a.rs"), dir("src", true, Some(vec![file("lib.rs")]))];
    let items = read_directory_contents(&icons(), true, &Some(listing)).ok().unwrap();
    assert_eq!(names(&items), vec!["a.rs", "src"]);
    assert!(items.iter().all(|i| i.children.is_none()));
    assert!(items[1].has_children);
}

#[test]
fn default_depth_expands_one_level() {
    let listing = vec![dir(
        "src",
        true,
        Some(vec![file("lib.rs"), dir("nested", true, None)]),
    )];
    let items = read_directory_structure(&icons(), true, &Some(listing), None).ok().unwrap();
    let children = items[0].children.as_ref().unwrap();
    assert_eq!(names(children), vec!["lib.rs", "nested"]);
    assert!(items[0].has_children);
    assert!(children[1].children.is_none());
    assert!(children[1].has_children);
}

#[test]
fn has_children_follows_expanded_children() {
    // The probe saw an entry, but the only entry cannot be read.
    let listing = vec![dir("locked", true, Some(vec![unreadable("secret")]))];
    let items = read_directory_structure(&icons(), true, &Some(listing), Some(1)).ok().unwrap();
    assert_eq!(items[0].children.as_ref().unwrap().len(), 0);
    assert!(!items[0].has_children);
}

#[test]
fn deeper_scan_stops_at_bound() {
    let deep = dir("c", true, None);
    let listing = vec![dir("a", true, Some(vec![dir("b", true, Some(vec![deep]))]))];
    let items = read_directory_structure(&icons(), true, &Some(listing), Some(2)).ok().unwrap();
    let b = &items[0].children.as_ref().unwrap()[0];
    let c = &b.children.as_ref().unwrap()[0];
    assert_eq!(c.name, "c");
    assert!(c.children.is_none());
    assert!(c.has_children);
}

#[test]
fn empty_directory_one_level() {
    let items = read_directory_contents(&icons(), true, &Some(Vec::new())).ok().unwrap();
    assert!(items.is_empty());
}

#[test]
fn empty_directory_expanded_has_empty_children() {
    let listing = vec![dir("empty", false, Some(Vec::new()))];
    let items = read_directory_structure(&icons(), true, &Some(listing), Some(1)).ok().unwrap();
    let children = items[0].children.as_ref().unwrap();
    assert!(children.is_empty());
    assert!(!items[0].has_children);
}

#[test]
fn expanded_directory_that_could_not_be_listed() {
    let listing = vec![dir("gone", false, None)];
    let items = read_directory_structure(&icons(), true, &Some(listing), Some(1)).ok().unwrap();
    assert!(items[0].children.as_ref().unwrap().is_empty());
    assert!(!items[0].has_children);
}

#[test]
fn nonexistent_root_is_not_a_directory() {
    let r = read_directory_structure(&icons(), false, &None, None);
    assert!(matches!(r, Err(ScanError::NotADirectory)));
    let r = read_directory_contents(&icons(), false, &None);
    assert!(matches!(r, Err(ScanError::NotADirectory)));
}

#[test]
fn unreadable_root_is_an_error() {
    let r = read_directory_structure(&icons(), true, &None, Some(3));
    assert!(matches!(r, Err(ScanError::RootUnreadable)));
}

#[test]
fn error_messages() {
    assert_eq!(ScanError::NotADirectory.message(), "The provided path is not a directory");
    assert_eq!(ScanError::RootUnreadable.message(), "The directory could not be read");
}

#[test]
fn unreadable_entry_is_dropped() {
    let listing = vec![file("one.txt"), unreadable("locked"), file("two.txt")];
    let items = read_directory_structure(&icons(), true, &Some(listing), Some(1)).ok().unwrap();
    assert_eq!(names(&items), vec!["one.txt", "two.txt"]);
    assert_eq!(items[1].path, "/root/two.txt");
}

#[test]
fn repeated_scans_agree() {
    let make = || {
        vec![
            file("report.pdf"),
            dir("src", true, Some(vec![file("main.rs"), dir("x", false, None)])),
        ]
    };
    let a = build_level(&icons(), &make(), 1);
    let b = build_level(&icons(), &make(), 1);
    assert_eq!(a.len(), b.len());
    for (x, y) in a.iter().zip(b.iter()) {
        assert_eq!(x.name, y.name);
        assert_eq!(x.path, y.path);
        assert_eq!(x.icon, y.icon);
        assert_eq!(x.is_dir, y.is_dir);
        assert_eq!(x.has_children, y.has_children);
        assert_eq!(x.children.as_ref().map(|c| names(c)), y.children.as_ref().map(|c| names(c)));
    }
}

#[test]
fn budget_counts_down() {
    assert_eq!(next_budget(0), None);
    assert_eq!(next_budget(1), Some(0));
    assert_eq!(next_budget(5), Some(4));
}
