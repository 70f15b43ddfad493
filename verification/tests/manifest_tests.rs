use ant_war::manifest::Manifest;
use ant_war::text::{has_prefix, sort_names, str_less};

fn sorted(mut names: Vec<String>) -> Vec<String> {
    names.sort();
    names
}

#[test]
fn new_manifest_is_empty_and_not_loaded() {
    let manifest = Manifest::new();
    assert!(!manifest.loaded());
    assert!(manifest.files().is_empty());
    assert_eq!(manifest.content(), "");
}

#[test]
fn loading_reads_every_non_empty_line() {
    let mut manifest = Manifest::new();
    manifest.load_content("maps/a.map\n\nsprites/x.png\r\nmaps/b.map");
    assert!(manifest.loaded());
    let mut files: Vec<String> = manifest.files().iter().cloned().collect();
    files.sort();
    assert_eq!(files, vec!["maps/a.map", "maps/b.map", "sprites/x.png"]);
}

#[test]
fn loading_keeps_a_lone_trailing_carriage_return() {
    let mut manifest = Manifest::new();
    manifest.load_content("a\r");
    assert!(manifest.files().contains("a\r"));
    let mut manifest = Manifest::new();
    manifest.load_content("a\r\n");
    assert!(manifest.files().contains("a"));
}

#[test]
fn loading_empty_text_loads_nothing() {
    let mut manifest = Manifest::new();
    manifest.load_content("\n\n");
    assert!(manifest.loaded());
    assert!(manifest.files().is_empty());
}

#[test]
fn loading_adds_to_what_is_known() {
    let mut manifest = Manifest::new();
    manifest.insert_file("maps/old.map".to_string());
    manifest.load_content("maps/new.map\n");
    assert_eq!(manifest.files().len(), 2);
}

#[test]
fn map_files_are_those_in_the_maps_folder() {
    let mut manifest = Manifest::new();
    manifest.load_content("maps/a.map\nmapsx/b.map\nsprites/maps/c.map\nmaps/d.map\n");
    assert_eq!(sorted(manifest.map_files()), vec!["maps/a.map", "maps/d.map"]);
}

#[test]
fn insert_and_remove_files() {
    let mut manifest = Manifest::new();
    manifest.insert_file("maps/a.map".to_string());
    manifest.insert_file("maps/a.map".to_string());
    manifest.insert_file("maps/b.map".to_string());
    manifest.remove_file("maps/a.map".to_string());
    manifest.remove_file("maps/zzz.map".to_string());
    assert_eq!(manifest.map_files(), vec!["maps/b.map"]);
}

#[test]
fn content_lists_files_sorted_one_per_line() {
    let mut manifest = Manifest::new();
    manifest.insert_file("maps/b.map".to_string());
    manifest.insert_file("maps/a.map".to_string());
    manifest.insert_file("manifest.txt".to_string());
    manifest.insert_file("maps/A.map".to_string());
    assert_eq!(manifest.content(), "manifest.txt\nmaps/A.map\nmaps/a.map\nmaps/b.map\n");
}

#[test]
fn written_content_reads_back_the_same_files() {
    let mut manifest = Manifest::new();
    for name in ["maps/z.map", "maps/é.map", "icons/cross.png", "maps/a.map"] {
        manifest.insert_file(name.to_string());
    }
    let mut reloaded = Manifest::new();
    reloaded.load_content(&manifest.content());
    assert_eq!(reloaded.files(), manifest.files());
}

#[test]
fn names_sort_in_str_order() {
    let names: Vec<String> = ["b", "ab", "a", "é", "Z", "abc"].iter().map(|s| s.to_string()).collect();
    assert_eq!(sort_names(&names), sorted(names.clone()));
}

#[test]
fn str_less_matches_str_order() {
    let words = ["", "a", "ab", "b", "B", "é", "e", "aa"];
    for a in words {
        for b in words {
            assert_eq!(str_less(a, b), a < b, "{a:?} < {b:?}");
        }
    }
}

#[test]
fn prefixes() {
    assert!(has_prefix("maps/a.map", "maps/"));
    assert!(has_prefix("maps/", "maps/"));
    assert!(has_prefix("abc", ""));
    assert!(!has_prefix("map", "maps/"));
    assert!(!has_prefix("mapsa/", "maps/"));
}

#[test]
fn saving_a_file_twice_writes_the_same_manifest() {
    let mut manifest = Manifest::new();
    manifest.insert_file("maps/forest.map".to_string());
    manifest.insert_file("icons/cross.png".to_string());
    let once = manifest.content();
    manifest.insert_file("maps/forest.map".to_string());
    assert_eq!(manifest.content(), once);
    assert_eq!(once, "icons/cross.png\nmaps/forest.map\n");
}
