use wags_tails::get_provider;
use wags_tails::canonical_name;
use wags_tails::extract_version;
use wags_tails::finish_remote;
use wags_tails::join_path;
use wags_tails::lex_le_str;
use wags_tails::list;
use wags_tails::matching_entries;
use wags_tails::offline_scan;
use wags_tails::pick_xdg_data_dir;
use wags_tails::plan_remote;
use wags_tails::select_storage_root;
use wags_tails::split_colon;
use wags_tails::ChemblData;
use wags_tails::ConfigError;
use wags_tails::DataProvider;
use wags_tails::DataVersion;
use wags_tails::DownloadError;
use wags_tails::DrugsAtFDA;
use wags_tails::FetchError;
use wags_tails::IsoDateVersion;
use wags_tails::ListPrintMode;
use wags_tails::OncoTreeData;
use wags_tails::ParseError;
use wags_tails::ResolveError;
use wags_tails::WildcardVersion;

#[test]
fn round_trip_wildcard_version() {
    let name = canonical_name("chembl", "34", "db");
    assert_eq!(name, "chembl_34.db");
    let pat = DataVersion::Wildcard;
    let back = extract_version("chembl", "db", &pat, &name).unwrap();
    assert_eq!(back, "34");
}

#[test]
fn round_trip_iso_date_version() {
    let name = canonical_name("drugsatfda", "20240601", "json");
    assert_eq!(name, "drugsatfda_20240601.json");
    let pat = DataVersion::IsoDate;
    let back = extract_version("drugsatfda", "json", &pat, &name).unwrap();
    assert_eq!(back, "20240601");
}

#[test]
fn round_trip_version_with_dots() {
    let pat = DataVersion::Wildcard;
    let name = canonical_name("chembl", "1.db", "db");
    assert_eq!(name, "chembl_1.db.db");
    let back = extract_version("chembl", "db", &pat, &name).unwrap();
    assert_eq!(back, "1.db");
}

#[test]
fn iso_date_pattern_matches_exactly_eight_digits() {
    let iso = IsoDateVersion {};
    assert!(iso.matches("20240601"));
    assert!(!iso.matches("2024060"));
    assert!(!iso.matches("202406011"));
    assert!(!iso.matches("2024060a"));
    assert!(!iso.matches(""));
}

#[test]
fn wildcard_pattern_matches_any_nonempty_token() {
    let wild = WildcardVersion {};
    assert!(wild.matches("34"));
    assert!(wild.matches("x"));
    assert!(!wild.matches(""));
}

#[test]
fn extract_version_rejects_unrelated_names() {
    let pat = DataVersion::Wildcard;
    assert_eq!(
        extract_version("chembl", "db", &pat, "stray.txt"),
        Err(ParseError::NoMatch)
    );
    assert_eq!(
        extract_version("chembl", "db", &pat, "chembl34.db"),
        Err(ParseError::NoMatch)
    );
    assert_eq!(
        extract_version("chembl", "db", &pat, "chembl_.db"),
        Err(ParseError::NoMatch)
    );
    let iso = DataVersion::IsoDate;
    assert_eq!(
        extract_version("drugsatfda", "json", &iso, "drugsatfda_2024060.json"),
        Err(ParseError::NoMatch)
    );
}

#[test]
fn provider_lookup_is_case_insensitive() {
    assert_eq!(get_provider("CHEMBL").unwrap().src_name(), "chembl");
    assert_eq!(get_provider("OncoTree").unwrap().src_name(), "oncotree");
    assert_eq!(get_provider("drugsatfda").unwrap().src_name(), "drugsatfda");
    assert!(get_provider("something_else").is_err());
}

#[test]
fn provider_identities() {
    let p = get_provider("chembl").unwrap();
    assert_eq!(p.file_type(), "db");
    assert_eq!(p.data_dir_name(), "chembl");
    let q = get_provider("oncotree").unwrap();
    assert_eq!(q.file_type(), "json");
    let d = get_provider("drugsatfda").unwrap();
    assert_eq!(d.file_type(), "json");
    assert!(d.version_manifest_url().is_none());
    assert!(d.download_url("20240601").is_none());
}

#[test]
fn chembl_manifest_parse_finds_release() {
    let p = ChemblData {};
    let body = "ChEMBL database\n\nRelease:   chembl_34\ndate: whenever\n";
    assert_eq!(p.parse_latest_version(body).unwrap(), "34");
}

#[test]
fn chembl_manifest_parse_takes_leftmost_release() {
    let p = ChemblData {};
    let body = "Release: chembl_33\nRelease: chembl_34\n";
    assert_eq!(p.parse_latest_version(body).unwrap(), "33");
}

#[test]
fn chembl_manifest_parse_requires_the_full_shape() {
    let p = ChemblData {};
    assert_eq!(
        p.parse_latest_version("no release line here"),
        Err(FetchError::UnexpectedResponse)
    );
    assert_eq!(
        p.parse_latest_version("Release:chembl_34"),
        Err(FetchError::UnexpectedResponse)
    );
    assert_eq!(
        p.parse_latest_version("Release: chembl_3"),
        Err(FetchError::UnexpectedResponse)
    );
}

#[test]
fn chembl_urls() {
    let p = ChemblData {};
    assert_eq!(
        p.version_manifest_url(),
        "https://ftp.ebi.ac.uk/pub/databases/chembl/ChEMBLdb/latest/README"
    );
    assert_eq!(
        p.download_url("34"),
        "https://ftp.ebi.ac.uk/pub/databases/chembl/ChEMBLdb/latest/chembl_34_sqlite.tar.gz"
    );
}

#[test]
fn oncotree_parse_reads_first_release_date() {
    let p = OncoTreeData {};
    let body = "[{\"release_date\":\"20240601\"},{\"release_date\":\"20230101\"}]";
    assert_eq!(p.parse_latest_version(body).unwrap(), "20240601");
}

#[test]
fn oncotree_parse_classifies_failures() {
    let p = OncoTreeData {};
    assert_eq!(
        p.parse_latest_version("not json at all"),
        Err(FetchError::UnexpectedResponse)
    );
    assert_eq!(p.parse_latest_version("[]"), Err(FetchError::NotFound));
    assert_eq!(
        p.parse_latest_version("{\"release_date\":\"20240601\"}"),
        Err(FetchError::UnexpectedResponse)
    );
    assert_eq!(
        p.parse_latest_version("[{\"version\":\"x\"}]"),
        Err(FetchError::UnexpectedResponse)
    );
    assert_eq!(
        p.parse_latest_version("[{\"release_date\":7}]"),
        Err(FetchError::UnexpectedResponse)
    );
}

#[test]
fn oncotree_urls() {
    let p = OncoTreeData {};
    assert_eq!(p.versions_url(), "http://oncotree.info/api/versions");
    assert_eq!(
        p.download_url("oncotree_2021_11_02"),
        "http://oncotree.info/api/tumorTypes/tree?version=oncotree_2021_11_02"
    );
}

#[test]
fn drugsatfda_reports_no_remote_version() {
    let p = get_provider("drugsatfda").unwrap();
    assert_eq!(
        p.parse_latest_version("anything"),
        Err(FetchError::NotFound)
    );
}

#[test]
fn scan_keeps_exactly_the_conforming_entries() {
    let p = get_provider("oncotree").unwrap();
    let entries = vec![
        String::from("oncotree_20230101.json"),
        String::from("stray.txt"),
        String::from("notes.md"),
        String::from("oncotree_20240601.json"),
    ];
    let matched = matching_entries(&p, &entries);
    assert_eq!(
        matched,
        vec![
            String::from("oncotree_20230101.json"),
            String::from("oncotree_20240601.json"),
        ]
    );
}

#[test]
fn offline_scan_selects_latest_by_lexicographic_order() {
    let p = get_provider("oncotree").unwrap();
    let entries = vec![
        String::from("oncotree_20230101.json"),
        String::from("oncotree_20240601.json"),
    ];
    assert_eq!(
        offline_scan(&p, &entries).unwrap(),
        "oncotree_20240601.json"
    );
}

#[test]
fn offline_scan_ignores_strays_and_fails_without_data() {
    let p = get_provider("oncotree").unwrap();
    let only_stray = vec![String::from("stray.txt")];
    assert_eq!(
        offline_scan(&p, &only_stray),
        Err(ResolveError::NoLocalData)
    );
    let empty: Vec<String> = Vec::new();
    assert_eq!(offline_scan(&p, &empty), Err(ResolveError::NoLocalData));
}

#[test]
fn remote_resolution_of_fresh_cache_downloads_once() {
    let p = get_provider("chembl").unwrap();
    let plan = plan_remote(&p, Ok(String::from("34")), false, false).unwrap();
    assert_eq!(plan.version, "34");
    assert_eq!(plan.file_name, "chembl_34.db");
    assert!(plan.needs_download);
    let resolved = finish_remote(&plan, "/data/wags_tails/chembl", Ok(())).unwrap();
    assert_eq!(resolved, "/data/wags_tails/chembl/chembl_34.db");
}

#[test]
fn remote_resolution_is_idempotent_once_cached() {
    let p = get_provider("chembl").unwrap();
    let first = plan_remote(&p, Ok(String::from("34")), false, false).unwrap();
    assert!(first.needs_download);
    let second = plan_remote(&p, Ok(String::from("34")), true, false).unwrap();
    assert_eq!(second.file_name, first.file_name);
    assert!(!second.needs_download);
}

#[test]
fn refresh_always_forces_a_download() {
    let p = get_provider("chembl").unwrap();
    let cached = plan_remote(&p, Ok(String::from("34")), true, true).unwrap();
    assert!(cached.needs_download);
    let missing = plan_remote(&p, Ok(String::from("34")), false, true).unwrap();
    assert!(missing.needs_download);
}

#[test]
fn remote_resolution_propagates_failures() {
    let p = get_provider("chembl").unwrap();
    let planned = plan_remote(&p, Err(FetchError::Network), false, false);
    assert_eq!(planned.err(), Some(ResolveError::Fetch(FetchError::Network)));
    let plan = plan_remote(&p, Ok(String::from("34")), false, false).unwrap();
    let resolved = finish_remote(&plan, "/tmp/x", Err(DownloadError::Io));
    assert_eq!(
        resolved.err(),
        Some(ResolveError::Download(DownloadError::Io))
    );
}

#[test]
fn list_renders_each_mode() {
    let p = get_provider("oncotree").unwrap();
    let entries = vec![
        String::from("oncotree_20230101.json"),
        String::from("stray.txt"),
        String::from("oncotree_20240601.json"),
    ];
    let by_name = list(&p, "/data/oncotree", &entries, &ListPrintMode::Filename);
    assert_eq!(
        by_name,
        vec![
            String::from("oncotree_20230101.json"),
            String::from("oncotree_20240601.json"),
        ]
    );
    let by_version = list(&p, "/data/oncotree", &entries, &ListPrintMode::Version);
    assert_eq!(
        by_version,
        vec![String::from("20230101"), String::from("20240601")]
    );
    let by_path = list(&p, "/data/oncotree", &entries, &ListPrintMode::Path);
    assert_eq!(
        by_path,
        vec![
            String::from("/data/oncotree/oncotree_20230101.json"),
            String::from("/data/oncotree/oncotree_20240601.json"),
        ]
    );
}

#[test]
fn list_mode_names() {
    assert_eq!(ListPrintMode::Filename.mode_name(), "filename");
    assert_eq!(ListPrintMode::Version.mode_name(), "version");
    assert_eq!(ListPrintMode::Path.mode_name(), "path");
}

#[test]
fn parse_version_through_provider() {
    let p = get_provider("drugsatfda").unwrap();
    assert_eq!(
        p.parse_version("drugsatfda_20240601.json").unwrap(),
        "20240601"
    );
    assert_eq!(
        p.parse_version("drugsatfda_notadate.json"),
        Err(ParseError::NoMatch)
    );
}

#[test]
fn split_colon_splits_search_lists() {
    assert_eq!(
        split_colon("/a:/b::/c"),
        vec![
            String::from("/a"),
            String::from("/b"),
            String::from(""),
            String::from("/c"),
        ]
    );
    assert_eq!(split_colon(""), vec![String::from("")]);
    assert_eq!(split_colon("/only"), vec![String::from("/only")]);
}

#[test]
fn pick_xdg_data_dir_takes_first_usable() {
    let entries = vec![
        String::from("/first"),
        String::from("/second"),
        String::from("/third"),
    ];
    let usable = vec![false, true, true];
    assert_eq!(pick_xdg_data_dir(&entries, &usable).unwrap(), "/second");
    let none = vec![false, false, false];
    assert_eq!(
        pick_xdg_data_dir(&entries, &none),
        Err(ConfigError::NoUsablePath)
    );
}

#[test]
fn storage_root_precedence() {
    assert_eq!(
        select_storage_root(
            Some(String::from("/override")),
            Some(String::from("/home")),
            Some(String::from("/xdg")),
        ),
        "/override"
    );
    assert_eq!(
        select_storage_root(None, Some(String::from("/home")), Some(String::from("/xdg"))),
        "/home"
    );
    assert_eq!(
        select_storage_root(None, None, Some(String::from("/xdg"))),
        "/xdg"
    );
    assert_eq!(
        select_storage_root(None, None, None),
        "/users/jss009/.local/share/wags_tails"
    );
}

#[test]
fn join_path_concatenates() {
    assert_eq!(join_path("/root", "file.db"), "/root/file.db");
}

#[test]
fn offline_scan_orders_wildcard_tokens_too() {
    let p = get_provider("chembl").unwrap();
    let entries = vec![
        String::from("chembl_34.db"),
        String::from("chembl_33.db"),
        String::from("README"),
    ];
    assert_eq!(offline_scan(&p, &entries).unwrap(), "chembl_34.db");
    let single = vec![String::from("chembl_33.db")];
    assert_eq!(offline_scan(&p, &single).unwrap(), "chembl_33.db");
}

#[test]
fn lexicographic_comparison_of_tokens() {
    assert!(lex_le_str("20230101", "20240601"));
    assert!(!lex_le_str("20240601", "20230101"));
    assert!(lex_le_str("34", "34"));
    assert!(lex_le_str("3", "34"));
    assert!(!lex_le_str("34", "3"));
}

#[test]
fn chembl_provider_is_wildcard_versioned() {
    let p = DrugsAtFDA {};
    assert!(matches!(p.get_versioner(), DataVersion::IsoDate));
    let c = ChemblData {};
    assert!(matches!(c.get_versioner(), DataVersion::Wildcard));
    let provider: DataProvider = get_provider("chembl").unwrap();
    assert!(matches!(provider.get_versioner(), DataVersion::Wildcard));
}
