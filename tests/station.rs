use edgeless_station::{
    chars_of, choose_first, decimal_string, extract, is_package_file, join, list_categories, list_items, parse_alpha_quest,
    parse_info_quest, plugin_list, resolve_address, resolve_version, select, ventoy_plugin_url,
    CatalogItem, ErrorClass, Family, Listing, NodeInfo, Pattern, Quest, ReadStage, StationConfig, StationError,
};

fn config() -> StationConfig {
    StationConfig {
        disk_root: String::from("/srv/disk"),
        public_url: String::from("https://pineapple.edgeless.top/disk"),
        catalog_dir: String::from("插件包"),
        token: String::from("letmein"),
    }
}

fn names(list: &[&str]) -> Listing {
    Listing::Names(list.iter().map(|s| s.to_string()).collect())
}

fn file(name: &str, size: u64) -> NodeInfo {
    NodeInfo { name: name.to_string(), is_dir: false, size: Some(size) }
}

fn dir(name: &str) -> NodeInfo {
    NodeInfo { name: name.to_string(), is_dir: true, size: Some(4096) }
}

#[test]
fn extract_version_field_of_iso_name() {
    assert_eq!(extract("Edgeless_A1_2.3.0.iso", 2), Ok(String::from("2.3.0")));
}

#[test]
fn extract_every_field_of_iso_name() {
    let n = "Edgeless_A1_2.3.0.iso";
    assert_eq!(extract(n, 0), Ok(String::from("Edgeless")));
    assert_eq!(extract(n, 1), Ok(String::from("A1")));
    assert_eq!(extract(n, 3), Ok(String::from("iso")));
}

#[test]
fn extract_extensionless_name_keeps_fields() {
    let plain = "Edgeless_A1_rel";
    let with_ext = "Edgeless_A1_rel.iso";
    for i in 0..3 {
        assert_eq!(extract(plain, i), extract(with_ext, i));
    }
    assert_eq!(extract(plain, 2), Ok(String::from("rel")));
    assert_eq!(extract(plain, 3), Ok(String::new()));
}

#[test]
fn extract_index_past_extension_slot_fails() {
    assert_eq!(
        extract("Edgeless_A1_2.3.0.iso", 4),
        Err(StationError::IndexOutOfRange { name: String::from("Edgeless_A1_2.3.0.iso"), index: 4, count: 4 })
    );
    assert_eq!(
        extract("Edgeless_A1_rel", 4),
        Err(StationError::IndexOutOfRange { name: String::from("Edgeless_A1_rel"), index: 4, count: 4 })
    );
    assert!(extract("a_b.c", usize::MAX).is_err());
}

#[test]
fn extract_on_empty_and_odd_names() {
    assert_eq!(extract("", 0), Ok(String::new()));
    assert_eq!(extract("", 1), Ok(String::new()));
    assert!(matches!(extract("", 2), Err(StationError::IndexOutOfRange { count: 2, .. })));
    assert_eq!(extract("a__b.tar.gz", 1), Ok(String::new()));
    assert_eq!(extract("a__b.tar.gz", 2), Ok(String::from("b.tar")));
    assert_eq!(extract("a__b.tar.gz", 3), Ok(String::from("gz")));
    assert_eq!(extract("Edgeless Hub_beta_2.21.7z", 2), Ok(String::from("2.21")));
}

#[test]
fn pattern_compiles_and_matches_anywhere() {
    let p = Pattern::new("iso$").unwrap();
    assert_eq!(p.source(), "iso$");
    assert!(p.is_match("Edgeless_1.iso"));
    assert!(!p.is_match("Edgeless_1.iso.bak"));
    let q = Pattern::new("A1").unwrap();
    assert!(q.is_match("Edgeless_A1_2.iso"));
    assert!(Pattern::new("foo(bar").is_none());
}

#[test]
fn select_missing_directory_is_not_found() {
    assert_eq!(
        select("/nowhere", &Listing::Missing, "^Edgeless.*iso$"),
        Err(StationError::NotFound { path: String::from("/nowhere") })
    );
    assert_eq!(
        select("/nowhere", &Listing::Missing, "foo(bar"),
        Err(StationError::NotFound { path: String::from("/nowhere") })
    );
}

#[test]
fn select_invalid_pattern() {
    assert_eq!(
        select("/d", &names(&["a"]), "foo(bar"),
        Err(StationError::InvalidPattern { pattern: String::from("foo(bar") })
    );
    assert_eq!(
        select("/d", &Listing::Unreadable, "foo(bar"),
        Err(StationError::InvalidPattern { pattern: String::from("foo(bar") })
    );
}

#[test]
fn select_unreadable_directory() {
    assert_eq!(
        select("/d", &Listing::Unreadable, "x"),
        Err(StationError::NotReadable { path: String::from("/d"), stage: ReadStage::Scan })
    );
}

#[test]
fn select_first_match_in_listing_order() {
    let l = names(&["readme.txt", "Edgeless_A_1.0.iso", "Edgeless_B_2.0.iso"]);
    assert_eq!(select("/d", &l, "^Edgeless.*iso$"), Ok(String::from("Edgeless_A_1.0.iso")));
    let l = names(&["Edgeless_B_2.0.iso", "Edgeless_A_1.0.iso"]);
    assert_eq!(select("/d", &l, "^Edgeless.*iso$"), Ok(String::from("Edgeless_B_2.0.iso")));
}

#[test]
fn select_matches_unanchored_substring() {
    let l = names(&["old_Edgeless.iso.bak", "x"]);
    assert_eq!(select("/d", &l, "Edgeless"), Ok(String::from("old_Edgeless.iso.bak")));
    assert_eq!(
        select("/d", &l, "^Edgeless"),
        Err(StationError::NoMatch { path: String::from("/d"), pattern: String::from("^Edgeless") })
    );
}

#[test]
fn select_empty_directory_is_no_match() {
    assert_eq!(
        select("/d", &names(&[]), "."),
        Err(StationError::NoMatch { path: String::from("/d"), pattern: String::from(".") })
    );
}

#[test]
fn resolve_version_end_to_end() {
    let l = names(&["Edgeless_Test_1.0.0.iso"]);
    assert_eq!(resolve_version(&config(), Family::Iso, &l), Ok(String::from("1.0.0")));
}

#[test]
fn resolve_address_end_to_end() {
    let l = names(&["Edgeless_Test_1.0.0.iso"]);
    assert_eq!(
        resolve_address(&config(), Family::Iso, &l),
        Ok(String::from("https://pineapple.edgeless.top/disk/Socket/Edgeless_Test_1.0.0.iso"))
    );
}

#[test]
fn resolve_other_families() {
    let l = names(&["Edgeless_Alpha_4.1.0.wim", "Edgeless_Alpha_4.1.0.iso"]);
    assert_eq!(resolve_version(&config(), Family::Alpha, &l), Ok(String::from("4.1.0")));
    assert_eq!(
        resolve_address(&config(), Family::Alpha, &l),
        Ok(String::from("https://pineapple.edgeless.top/disk/Socket/Alpha/Edgeless_Alpha_4.1.0.wim"))
    );
    let l = names(&["Edgeless Hub_Beta_2.21.7z"]);
    assert_eq!(resolve_version(&config(), Family::Hub, &l), Ok(String::from("2.21")));
    assert_eq!(
        resolve_address(&config(), Family::Hub, &l),
        Ok(String::from("https://pineapple.edgeless.top/disk/Socket/Hub/Edgeless Hub_Beta_2.21.7z"))
    );
}

#[test]
fn resolve_passes_failures_through() {
    assert_eq!(
        resolve_version(&config(), Family::Iso, &Listing::Missing),
        Err(StationError::NotFound { path: String::from("/srv/disk/Socket") })
    );
    assert_eq!(
        resolve_address(&config(), Family::Hub, &names(&["a.txt"])),
        Err(StationError::NoMatch {
            path: String::from("/srv/disk/Socket/Hub"),
            pattern: String::from("^Edgeless Hub.*7z$")
        })
    );
    assert_eq!(
        resolve_version(&config(), Family::Iso, &names(&["Edgeless.iso"])),
        Err(StationError::IndexOutOfRange { name: String::from("Edgeless.iso"), index: 2, count: 2 })
    );
}

#[test]
fn family_settings() {
    assert_eq!(Family::Iso.dir(&config()), "/srv/disk/Socket");
    assert_eq!(Family::Alpha.pattern(), "^Edgeless.*wim$");
    assert_eq!(Family::Hub.subdir(), "Socket/Hub");
    assert_eq!(Family::Hub.version_index(), 2);
}

#[test]
fn categories_are_only_directories() {
    let entries = vec![dir("Tools"), file("notes.txt", 3), dir("Drivers"), file("x.7z", 9)];
    assert_eq!(
        list_categories(&config(), Some(entries)),
        Ok(vec![String::from("Tools"), String::from("Drivers")])
    );
    assert_eq!(list_categories(&config(), Some(vec![])), Ok(vec![]));
}

#[test]
fn categories_of_unreadable_root() {
    let r = list_categories(&config(), None);
    assert_eq!(
        r,
        Err(StationError::NotReadable { path: String::from("/srv/disk/插件包"), stage: ReadStage::Catalog })
    );
    assert_eq!(r.clone().unwrap_err().body(), "Error: Internal\nget_plugin_cate:Fail to read : /srv/disk/插件包");
    assert_eq!(r.unwrap_err().class(), ErrorClass::Internal);
}

#[test]
fn items_of_category() {
    let entries = vec![file("Firefox_90.0_Cno.7z", 1234), file("readme.txt", 10), file("a.7z.part", 5)];
    let items = list_items(&config(), "Tools", Some(entries)).unwrap();
    assert_eq!(
        items,
        vec![
            CatalogItem {
                name: String::from("Firefox_90.0_Cno.7z"),
                size: 1234,
                node_type: String::from("FILE"),
                url: String::from("https://pineapple.edgeless.top/disk/插件包/Tools/Firefox_90.0_Cno.7z"),
            },
            CatalogItem {
                name: String::from("a.7z.part"),
                size: 5,
                node_type: String::from("FILE"),
                url: String::from("https://pineapple.edgeless.top/disk/插件包/Tools/a.7z.part"),
            },
        ]
    );
}

#[test]
fn items_of_category_without_packages_is_empty() {
    assert_eq!(list_items(&config(), "Tools", Some(vec![])), Ok(vec![]));
    let entries = vec![file("readme.txt", 10), file("a7z", 1)];
    assert_eq!(list_items(&config(), "Tools", Some(entries)), Ok(vec![]));
}

#[test]
fn items_fail_whole_on_unreadable_metadata() {
    let entries = vec![
        file("a.7z", 1),
        NodeInfo { name: String::from("b.7z"), is_dir: false, size: None },
        file("c.7z", 3),
    ];
    assert_eq!(
        list_items(&config(), "Tools", Some(entries)),
        Err(StationError::NotReadable { path: String::from("/srv/disk/插件包/Tools"), stage: ReadStage::Metadata })
    );
    let entries = vec![NodeInfo { name: String::from("notes.txt"), is_dir: false, size: None }];
    assert!(list_items(&config(), "Tools", Some(entries)).is_err());
    assert_eq!(
        list_items(&config(), "Tools", None),
        Err(StationError::NotReadable { path: String::from("/srv/disk/插件包/Tools"), stage: ReadStage::CategoryOpen })
    );
}

#[test]
fn unknown_category_is_bad_request() {
    let r = plugin_list(&config(), "Nope", false, None);
    assert_eq!(r, Err(StationError::UnknownCategory { name: String::from("Nope") }));
    assert_eq!(r.clone().unwrap_err().class(), ErrorClass::BadRequest);
    assert_eq!(r.unwrap_err().body(), "Error: Quest\nUnknown quest:No such cate");
    let r = plugin_list(&config(), "Tools", true, None);
    assert_eq!(r.clone().unwrap_err().class(), ErrorClass::Internal);
    assert_eq!(plugin_list(&config(), "Tools", true, Some(vec![file("x.7z", 2)])).unwrap().len(), 1);
}

#[test]
fn package_marker_is_substring() {
    assert!(is_package_file("x.7z"));
    assert!(is_package_file("x.7z.001"));
    assert!(!is_package_file("x7z"));
    assert!(!is_package_file(".7"));
    assert!(!is_package_file(""));
}

#[test]
fn info_quests() {
    assert_eq!(parse_info_quest("iso_version"), Ok(Quest::Version(Family::Iso)));
    assert_eq!(parse_info_quest("iso_addr"), Ok(Quest::Address(Family::Iso)));
    assert_eq!(parse_info_quest("hub_version"), Ok(Quest::Version(Family::Hub)));
    assert_eq!(parse_info_quest("hub_addr"), Ok(Quest::Address(Family::Hub)));
    assert_eq!(parse_info_quest("ventoy_plugin_addr"), Ok(Quest::VentoyPlugin));
    assert_eq!(parse_info_quest("alpha"), Err(StationError::UnknownQuest { quest: String::from("alpha") }));
}

#[test]
fn alpha_quests_need_token() {
    let c = config();
    assert_eq!(parse_alpha_quest(&c, "letmein", "version"), Ok(Quest::Version(Family::Alpha)));
    assert_eq!(parse_alpha_quest(&c, "letmein", "addr"), Ok(Quest::Address(Family::Alpha)));
    assert_eq!(
        parse_alpha_quest(&c, "letmein", "zzz"),
        Err(StationError::UnknownQuest { quest: String::from("/alpha/zzz") })
    );
    let r = parse_alpha_quest(&c, "guess", "version");
    assert_eq!(r, Err(StationError::InvalidToken { token: String::from("guess") }));
    assert_eq!(r.unwrap_err().class(), ErrorClass::BadRequest);
    assert!(c.token_accepted("letmein"));
    assert!(!c.token_accepted("letmein "));
}

#[test]
fn ventoy_url() {
    assert_eq!(
        ventoy_plugin_url(&config()),
        "https://pineapple.edgeless.top/disk/Socket/Hub/ventoy_wimboot.img"
    );
}

#[test]
fn join_and_paths() {
    assert_eq!(join("a", "b"), "a/b");
    assert_eq!(join("", ""), "/");
    assert_eq!(config().catalog_root(), "/srv/disk/插件包");
    assert_eq!(config().category_path("Tools"), "/srv/disk/插件包/Tools");
}

#[test]
fn decimal_strings() {
    assert_eq!(decimal_string(0), "0");
    assert_eq!(decimal_string(7), "7");
    assert_eq!(decimal_string(10), "10");
    assert_eq!(decimal_string(12345), "12345");
    assert_eq!(decimal_string(usize::MAX), usize::MAX.to_string());
}

#[test]
fn error_bodies() {
    let e = StationError::NoMatch { path: String::from("/d"), pattern: String::from("^x") };
    assert_eq!(e.body(), "Error: Internal\nfile_selector:Matched nothing when looking into /d for ^x");
    let e = StationError::IndexOutOfRange { name: String::from("a.b"), index: 12, count: 2 };
    assert_eq!(e.detail(), "version_extractor:Index out of range when split a.b,got 12");
    let e = StationError::UnknownQuest { quest: String::from("what") };
    assert_eq!(e.body(), "Error: Quest\nUnknown quest:what");
    let e = StationError::UnknownCategory { name: String::from("Nope") };
    assert_eq!(e.body(), "Error: Quest\nUnknown quest:No such cate");
    assert_eq!(StationError::NotFound { path: String::from("/p") }.detail(), "file_selector:Can't find /p");
    let read = |stage| StationError::NotReadable { path: String::from("/p"), stage }.detail();
    assert_eq!(read(ReadStage::Scan), "file_selector:Can't read as directory: /p");
    assert_eq!(read(ReadStage::Catalog), "get_plugin_cate:Fail to read : /p");
    assert_eq!(read(ReadStage::CategoryOpen), "get_plugin_list:Can't open as directory : /p");
    assert_eq!(read(ReadStage::Metadata), "get_plugin_list:Fail to read : /p");
    assert_eq!(
        StationError::InvalidPattern { pattern: String::from("(") }.detail(),
        "file_selector:Invalid expression: ("
    );
    assert_eq!(
        StationError::InvalidToken { token: String::from("t") }.body(),
        "Error: Quest\nUnknown quest:Invalid token : t"
    );
}

#[test]
fn alpha_unknown_quest_body_names_route() {
    let r = parse_alpha_quest(&config(), "letmein", "zzz");
    assert_eq!(r.unwrap_err().body(), "Error: Quest\nUnknown quest:/alpha/zzz");
}

#[test]
fn choose_first_takes_first_flagged() {
    let ns = vec![String::from("a"), String::from("b"), String::from("c")];
    assert_eq!(choose_first("/d", "p", &ns, &vec![false, true, true]), Ok(String::from("b")));
    assert_eq!(
        choose_first("/d", "p", &ns, &vec![false, false, false]),
        Err(StationError::NoMatch { path: String::from("/d"), pattern: String::from("p") })
    );
}

#[test]
fn chars_of_splits_characters() {
    assert_eq!(chars_of("a插b"), vec!['a', '插', 'b']);
    assert_eq!(chars_of(""), Vec::<char>::new());
}
