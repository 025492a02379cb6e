use steamos_mount_core::steam::{insert_library_entry, next_library_id, select_library_folders, LibraryFolder};

fn folder(path: &str) -> LibraryFolder {
    LibraryFolder {
        path: path.to_string(),
        label: String::new(),
        contentid: "0".to_string(),
        totalsize: "0".to_string(),
        apps: vec![("730".to_string(), "12345678".to_string())],
    }
}

#[test]
fn library_folders_numeric_and_ordered() {
    let folders = vec![
        ("10".to_string(), folder("/ten")),
        ("contentstatsid".to_string(), folder("/x")),
        ("2".to_string(), folder("/two")),
        ("0".to_string(), folder("/zero")),
    ];
    let selected = select_library_folders(folders.clone());
    let ids: Vec<&str> = selected.iter().map(|(id, _)| id.as_str()).collect();
    assert_eq!(ids, vec!["0", "2", "10"]);
    assert_eq!(selected[0].1.apps, vec![("730".to_string(), "12345678".to_string())]);
    assert_eq!(next_library_id(&folders), 11);
    assert_eq!(next_library_id(&vec![]), 1);
}

#[test]
fn library_entry_goes_before_final_brace() {
    let vdf = "\"libraryfolders\"\n{\n\t\"0\"\n\t{\n\t}\n}\n";
    let out = insert_library_entry(vdf, 1, "/run/media/sd", "SD Card").unwrap();
    assert_eq!(
        out,
        "\"libraryfolders\"\n{\n\t\"0\"\n\t{\n\t}\n\t\"1\"\n\t{\n\t\t\"path\"\t\t\"/run/media/sd\"\n\t\t\"label\"\t\t\"SD Card\"\n\t\t\"contentid\"\t\t\"0\"\n\t\t\"totalsize\"\t\t\"0\"\n\t\t\"apps\"\n\t\t{\n\t\t}\n\t}\n}\n"
    );
    assert!(insert_library_entry("no braces", 1, "/p", "l").is_err());
}
