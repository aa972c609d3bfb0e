use mtgoupdater::paths::{first_file_match, str_contains, AppData, CardDataPaths, FileInfo};

fn info(name: &str, is_file: bool, age_secs: u64) -> FileInfo {
    FileInfo { name: name.to_string(), path: format!("dir/{name}"), is_file, age_secs }
}

#[test]
fn contains_finds_substrings() {
    assert!(str_contains("price-history-2023-10-02-full.json", "price-his"));
    assert!(str_contains("abc", ""));
    assert!(str_contains("abc", "abc"));
    assert!(!str_contains("ab", "abc"));
    assert!(!str_contains("card-definitions.json", "scryfall"));
}

#[test]
fn first_match_skips_directories_and_old_files() {
    let entries = vec![
        info("card-def-dir", false, 0),
        info("card-definitions-old.json", true, 5000),
        info("card-definitions-new.json", true, 10),
        info("card-definitions-newer.json", true, 1),
    ];
    assert_eq!(first_file_match(&entries, "card-def", Some(1000)), Some(2));
    assert_eq!(first_file_match(&entries, "card-def", None), Some(1));
    assert_eq!(first_file_match(&entries, "scryfall", None), None);
    assert_eq!(first_file_match(&Vec::new(), "x", None), None);
}

#[test]
fn card_data_paths_found() {
    let paths = CardDataPaths::find(
        "appdata",
        Some("appdata/scryfall.json".to_string()),
        Some("appdata/card-def.json".to_string()),
        Some("appdata/price-his.json".to_string()),
    )
    .unwrap();
    assert_eq!(paths.scryfall_path(), "appdata/scryfall.json");
    assert_eq!(paths.card_definitions_path(), "appdata/card-def.json");
    assert_eq!(paths.price_history_path(), "appdata/price-his.json");
}

#[test]
fn card_data_paths_report_missing_files() {
    let err = CardDataPaths::find("appdata", None, Some("c".to_string()), None).unwrap_err();
    assert_eq!(
        err,
        "Could not find Scryfall data JSON in \"appdata\"\nCould not find price history JSON in \"appdata\""
    );
    let err = CardDataPaths::find("d", Some("s".to_string()), None, Some("p".to_string())).unwrap_err();
    assert_eq!(err, "Could not find card definition JSON in \"d\"");
}

#[test]
fn app_data_paths() {
    let card_data = CardDataPaths::find(
        "appdata",
        Some("appdata/scryfall-20231002-full.json".to_string()),
        Some("appdata/card-definitions-2023-10-02-full.json".to_string()),
        Some("appdata/price-history-2023-10-02-full.json".to_string()),
    )
    .unwrap();
    let app_data = AppData::new("appdata".to_string(), card_data);
    assert_eq!(app_data.appdata_dir_path(), "appdata");
    assert_eq!(app_data.scryfall_path(), "appdata/scryfall-20231002-full.json");
    assert_eq!(app_data.card_definitions_path(), "appdata/card-definitions-2023-10-02-full.json");
    assert_eq!(app_data.price_history_path(), "appdata/price-history-2023-10-02-full.json");
}

#[test]
fn card_data_found_by_needle_in_one_listing() {
    let entries = vec![
        info("card-definitions-2023-10-02-full.json", true, 5),
        info("scryfall-20231002-full.json", true, 5),
        info("price-history-2023-10-02-full.json", true, 5),
        info("scryfall-old", false, 5),
    ];
    let paths = CardDataPaths::find_in("dir", &entries).unwrap();
    assert_eq!(paths.scryfall_path(), "dir/scryfall-20231002-full.json");
    assert_eq!(paths.card_definitions_path(), "dir/card-definitions-2023-10-02-full.json");
    assert_eq!(paths.price_history_path(), "dir/price-history-2023-10-02-full.json");
    let err = CardDataPaths::find_in("dir", &vec![info("card-definitions-2023-10-02-full.json", true, 5)]).unwrap_err();
    assert_eq!(
        err,
        "Could not find Scryfall data JSON in \"dir\"\nCould not find price history JSON in \"dir\""
    );
}
