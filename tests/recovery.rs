use tg2site::cursor::{entry_artifact_id, last_offset_from_dir, DirEntry};

fn file(name: &str) -> DirEntry {
    DirEntry { name: name.to_string(), is_dir: false }
}

fn dir(name: &str) -> DirEntry {
    DirEntry { name: name.to_string(), is_dir: true }
}

#[test]
fn recovers_largest_file_and_ignores_directories() {
    let entries = vec![file("3.json"), file("7.json"), dir("10")];
    assert_eq!(last_offset_from_dir(&entries), 7);
}

#[test]
fn directory_named_like_an_artifact_is_ignored() {
    let entries = vec![file("3.json"), dir("10.json")];
    assert_eq!(last_offset_from_dir(&entries), 3);
}

#[test]
fn empty_directory_recovers_minus_one() {
    assert_eq!(last_offset_from_dir(&Vec::new()), -1);
}

#[test]
fn non_numeric_names_are_ignored() {
    let entries = vec![file("notes.json"), file("12.txt"), file(".json"), file("README")];
    assert_eq!(last_offset_from_dir(&entries), -1);
}

#[test]
fn order_of_listing_does_not_matter() {
    let entries = vec![file("100.json"), file("25.json"), file("99.json")];
    assert_eq!(last_offset_from_dir(&entries), 100);
}

#[test]
fn artifact_names() {
    assert_eq!(entry_artifact_id(&file("42.json")), Some(42));
    assert_eq!(entry_artifact_id(&file("-5.json")), None);
    assert_eq!(entry_artifact_id(&file("+5.json")), None);
    assert_eq!(entry_artifact_id(&file("5.json.bak")), None);
    assert_eq!(entry_artifact_id(&file("99999999999999999999.json")), None);
    assert_eq!(entry_artifact_id(&dir("5.json")), None);
}
