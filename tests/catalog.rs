use server::catalog::{environment_names, has_suffix, CatalogEntry};
use server::select::{confirm_choice, ensure_choices, SelectionError};

fn entry(path: &str, is_file: bool) -> CatalogEntry {
    CatalogEntry { path: path.to_string(), is_file }
}

#[test]
fn catalog_lists_json_file_stems_recursively() {
    let entries = vec![
        entry("/envs/", false),
        entry("/envs/staging.json", true),
        entry("/envs/old", false),
        entry("/envs/old/production.json", true),
        entry("/envs/archive.json", false),
        entry("/envs/notes.txt", true),
        entry("/envs/upper.JSON", true),
        entry("/envs/backup.json.bak", true),
        entry("/envs/two.parts.json", true),
    ];
    assert_eq!(
        environment_names(&entries),
        vec!["staging".to_string(), "production".to_string(), "two.parts".to_string()]
    );
}

#[test]
fn empty_directory_gives_no_environments_and_no_selection() {
    let names = environment_names(&vec![entry("/envs/", false)]);
    assert!(names.is_empty());
    assert_eq!(ensure_choices(names.len()), Err(SelectionError::Empty));
    assert_eq!(confirm_choice(names.len(), Some(0)), Err(SelectionError::Empty));
}

#[test]
fn has_suffix_compares_exactly() {
    assert!(has_suffix("a.json", ".json"));
    assert!(has_suffix(".json", ".json"));
    assert!(!has_suffix("json", ".json"));
    assert!(!has_suffix("a.Json", ".json"));
    assert!(has_suffix("anything", ""));
}
