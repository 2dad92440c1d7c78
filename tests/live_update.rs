use capgo_server::api::live_update::{
    checksum_file_name, classify_assets, fallback_update, is_package_name, fetch_targets, get_update_info, is_newer_version,
    no_update_response, trim_fetched, update_fetches, AppInfos, Asset, Release, UpdateInfo,
};
use capgo_server::identity::RepoAlias;

const FALLBACK_URL: &str =
    "https://github.com/Sinotrade/scone/releases/download/0.0.1s/yvictor.scone_0.0.1.zip";

fn asset(name: &str, url: &str) -> Asset {
    Asset { name: name.to_string(), browser_download_url: url.to_string() }
}

fn release(tag: &str, assets: Vec<Asset>) -> Release {
    Release { tag_name: tag.to_string(), name: None, body: None, prerelease: false, assets }
}

fn app(app_id: &str, version_name: &str) -> AppInfos {
    AppInfos {
        platform: "ios".to_string(),
        device_id: "device-1".to_string(),
        app_id: app_id.to_string(),
        custom_id: None,
        plugin_version: "5.0.0".to_string(),
        version_build: "1".to_string(),
        version_code: "1".to_string(),
        version_name: version_name.to_string(),
        version_os: "17".to_string(),
        is_emulator: false,
        is_prod: true,
    }
}

fn no_aliases() -> Vec<RepoAlias> {
    Vec::new()
}

/// Runs a request the way the server does, with `contents` standing for what
/// each address holds (an address missing from it cannot be read).
fn run(a: &AppInfos, releases: &Vec<Release>, contents: &[(&str, &str)]) -> Option<UpdateInfo> {
    let targets = update_fetches(a, releases);
    let fetched: Vec<Option<String>> = targets
        .iter()
        .map(|t| {
            t.as_ref().and_then(|url| {
                contents.iter().find(|(u, _)| u == url).map(|(_, body)| body.to_string())
            })
        })
        .collect();
    get_update_info(a, &no_aliases(), releases, &fetched)
}

#[test]
fn scenario_newer_release_gives_its_package() {
    let releases = vec![release("2.0.0", vec![asset("widget.zip", "https://x/widget.zip")])];
    let r = run(&app("acme.widget", "1.0.0"), &releases, &[]);
    assert_eq!(
        r,
        Some(UpdateInfo {
            version: "2.0.0".to_string(),
            url: "https://x/widget.zip".to_string(),
            session_key: None,
            checksum: None,
        })
    );
}

#[test]
fn scenario_same_version_gives_nothing() {
    let releases = vec![release("2.0.0", vec![asset("widget.zip", "https://x/widget.zip")])];
    assert_eq!(run(&app("acme.widget", "2.0.0"), &releases, &[]), None);
}

#[test]
fn scenario_empty_feed_gives_defaults() {
    let r = run(&app("acme.widget", "1.0.0"), &Vec::new(), &[]);
    assert_eq!(
        r,
        Some(UpdateInfo {
            version: "0.0.1".to_string(),
            url: FALLBACK_URL.to_string(),
            session_key: None,
            checksum: None,
        })
    );
    assert_eq!(Some(fallback_update()), r);
}

#[test]
fn scenario_key_content_is_trimmed() {
    let releases = vec![release(
        "2.0.0",
        vec![asset("key", "https://x/key"), asset("widget.zip", "https://x/widget.zip")],
    )];
    let r = run(&app("acme.widget", "1.0.0"), &releases, &[("https://x/key", "  secret123\n")]);
    let u = r.unwrap();
    assert_eq!(u.session_key, Some("secret123".to_string()));
    assert_eq!(u.version, "2.0.0");
    assert_eq!(u.url, "https://x/widget.zip");
}

#[test]
fn malformed_identifiers_get_nothing() {
    let releases = vec![release("2.0.0", vec![asset("widget.zip", "https://x/widget.zip")])];
    for id in ["acme", "acme.widget.extra", ".widget", "acme.", ".", ""] {
        assert_eq!(run(&app(id, "builtin"), &releases, &[]), None, "{}", id);
        assert_eq!(run(&app(id, "1.0.0"), &Vec::new(), &[]), None, "{}", id);
    }
}

#[test]
fn builtin_takes_first_release() {
    let releases = vec![
        release("0.5.0", vec![asset("app.zip", "https://x/0.5.0/app.zip")]),
        release("9.0.0", vec![asset("app.zip", "https://x/9.0.0/app.zip")]),
    ];
    let u = run(&app("acme.app", "builtin"), &releases, &[]).unwrap();
    assert_eq!(u.version, "0.5.0");
    assert_eq!(u.url, "https://x/0.5.0/app.zip");
}

#[test]
fn builtin_beats_text_order() {
    // "builtin" comes after "1.0.0" in text order, and is still an update.
    let releases = vec![release("1.0.0", vec![asset("app.zip", "https://x/app.zip")])];
    let u = run(&app("acme.app", "builtin"), &releases, &[]).unwrap();
    assert_eq!(u.version, "1.0.0");
}

#[test]
fn later_newer_release_is_not_considered() {
    let releases = vec![
        release("1.0.0", vec![asset("app.zip", "https://x/1/app.zip")]),
        release("3.0.0", vec![asset("app.zip", "https://x/3/app.zip")]),
    ];
    assert_eq!(run(&app("acme.app", "2.0.0"), &releases, &[]), None);
}

#[test]
fn versions_compare_as_text() {
    assert!(!is_newer_version("9.0.0", "10.0.0"));
    assert!(is_newer_version("1.0.0", "2.0.0"));
    assert!(is_newer_version("1.0", "1.0.1"));
    assert!(!is_newer_version("1.0.1", "1.0"));
    assert!(!is_newer_version("2.0.0", "2.0.0"));
    assert!(is_newer_version("builtin", "0.0.1"));
    assert!(is_newer_version("", "0"));
    assert!(!is_newer_version("", ""));
}

#[test]
fn no_key_asset_leaves_session_key_unset() {
    let releases = vec![release(
        "2.0.0",
        vec![asset("notes.txt", "https://x/notes.txt"), asset("app.zip", "https://x/app.zip")],
    )];
    let u = run(&app("acme.app", "1.0.0"), &releases, &[]).unwrap();
    assert_eq!(u.session_key, None);
    assert_eq!(u.version, "2.0.0");
}

#[test]
fn missing_checksum_file_leaves_checksum_unset() {
    let releases = vec![release(
        "2.0.0",
        vec![asset("foo.zip", "https://x/foo.zip"), asset("bar.checksum", "https://x/bar.checksum")],
    )];
    let u = run(&app("acme.app", "1.0.0"), &releases, &[("https://x/bar.checksum", "abc")]).unwrap();
    assert_eq!(u.checksum, None);
    assert_eq!(u.version, "2.0.0");
    assert_eq!(u.url, "https://x/foo.zip");
}

#[test]
fn checksum_file_beside_package_is_read_and_trimmed() {
    let releases = vec![release(
        "2.0.0",
        vec![asset("foo.checksum", "https://x/foo.checksum"), asset("foo.zip", "https://x/foo.zip")],
    )];
    let u = run(&app("acme.app", "1.0.0"), &releases, &[("https://x/foo.checksum", "\tdeadbeef \n")])
        .unwrap();
    assert_eq!(u.checksum, Some("deadbeef".to_string()));
}

#[test]
fn unreadable_key_and_checksum_are_left_unset() {
    let releases = vec![release(
        "2.0.0",
        vec![
            asset("key", "https://x/key"),
            asset("foo.zip", "https://x/foo.zip"),
            asset("foo.checksum", "https://x/foo.checksum"),
        ],
    )];
    let u = run(&app("acme.app", "1.0.0"), &releases, &[]).unwrap();
    assert_eq!(
        u,
        UpdateInfo {
            version: "2.0.0".to_string(),
            url: "https://x/foo.zip".to_string(),
            session_key: None,
            checksum: None,
        }
    );
}

#[test]
fn last_package_and_key_win() {
    let releases = vec![release(
        "2.0.0",
        vec![
            asset("key", "https://x/key1"),
            asset("a.zip", "https://x/a.zip"),
            asset("b.zip", "https://x/b.zip"),
            asset("key", "https://x/key2"),
        ],
    )];
    let u = run(
        &app("acme.app", "1.0.0"),
        &releases,
        &[("https://x/key1", "one"), ("https://x/key2", "two")],
    )
    .unwrap();
    assert_eq!(u.url, "https://x/b.zip");
    assert_eq!(u.session_key, Some("two".to_string()));
}

#[test]
fn release_without_package_keeps_defaults_but_reads_key() {
    let releases = vec![release("2.0.0", vec![asset("key", "https://x/key")])];
    let u = run(&app("acme.app", "1.0.0"), &releases, &[("https://x/key", "k")]).unwrap();
    assert_eq!(u.version, "0.0.1");
    assert_eq!(u.url, FALLBACK_URL);
    assert_eq!(u.session_key, Some("k".to_string()));
}

#[test]
fn same_request_twice_same_answer() {
    let releases = vec![release(
        "2.0.0",
        vec![asset("key", "https://x/key"), asset("w.zip", "https://x/w.zip")],
    )];
    let contents = [("https://x/key", " s ")];
    let a = app("acme.widget", "1.0.0");
    let first = run(&a, &releases, &contents);
    let second = run(&a, &releases, &contents);
    assert_eq!(first, second);
    let mut other = app("acme.widget", "1.0.0");
    other.platform = "android".to_string();
    other.device_id = "device-2".to_string();
    assert_eq!(run(&other, &releases, &contents), first);
}

#[test]
fn fetch_targets_name_key_and_checksum_files() {
    let r = release(
        "2.0.0",
        vec![
            asset("key", "https://x/key"),
            asset("app.zip", "https://x/app.zip"),
            asset("app.checksum", "https://x/app.checksum"),
            asset("other.zip", "https://x/other.zip"),
            asset("readme", "https://x/readme"),
        ],
    );
    assert_eq!(
        fetch_targets(&r),
        vec![
            Some("https://x/key".to_string()),
            Some("https://x/app.checksum".to_string()),
            None,
            None,
            None,
        ]
    );
}

#[test]
fn update_fetches_only_for_a_candidate() {
    let releases = vec![release("2.0.0", vec![asset("key", "https://x/key")])];
    assert_eq!(update_fetches(&app("a.b", "1.0.0"), &releases), vec![Some("https://x/key".to_string())]);
    assert!(update_fetches(&app("a.b", "3.0.0"), &releases).is_empty());
    assert!(update_fetches(&app("a.b", "1.0.0"), &Vec::new()).is_empty());
}

#[test]
fn trim_fetched_trims_each_text() {
    let t = trim_fetched(&vec![Some("  a b \n".to_string()), None, Some("".to_string())]);
    assert_eq!(t, vec![Some("a b".to_string()), None, Some("".to_string())]);
}

#[test]
fn classify_assets_takes_trimmed_texts_as_given() {
    let r = release(
        "3.1.0",
        vec![asset("key", "https://x/key"), asset("p.zip", "https://x/p.zip"), asset("p.checksum", "https://x/c")],
    );
    let u = classify_assets(&r, &vec![Some("k ".to_string()), Some("c".to_string())]);
    assert_eq!(
        u,
        UpdateInfo::new("3.1.0", "https://x/p.zip", Some("k ".to_string()), Some("c".to_string()))
    );
}

#[test]
fn update_info_new_keeps_fields() {
    let u = UpdateInfo::new("1.2.3", "https://x/u.zip", None, Some("sum".to_string()));
    assert_eq!(u.version, "1.2.3");
    assert_eq!(u.url, "https://x/u.zip");
    assert_eq!(u.session_key, None);
    assert_eq!(u.checksum, Some("sum".to_string()));
}

#[test]
fn no_update_response_text() {
    let e = no_update_response();
    assert_eq!(e.message, "Error version not found");
    assert_eq!(e.error, "No update available");
}

#[test]
fn alias_table_forces_owner() {
    let aliases = vec![RepoAlias { repo: "scone".to_string(), owner: "Sinotrade".to_string() }];
    let releases = vec![release("2.0.0", vec![asset("s.zip", "https://x/s.zip")])];
    let a = app("someone.scone", "1.0.0");
    let fetched: Vec<Option<String>> = vec![None];
    assert!(get_update_info(&a, &aliases, &releases, &fetched).is_some());
}

#[test]
fn checksum_belongs_to_the_reported_package_only() {
    let releases = vec![release(
        "2.0.0",
        vec![
            asset("a.zip", "https://x/a.zip"),
            asset("a.checksum", "https://x/a.checksum"),
            asset("b.zip", "https://x/b.zip"),
        ],
    )];
    let u = run(&app("acme.app", "1.0.0"), &releases, &[("https://x/a.checksum", "aaaa")]).unwrap();
    assert_eq!(u.url, "https://x/b.zip");
    assert_eq!(u.version, "2.0.0");
    assert_eq!(u.checksum, None);
}

#[test]
fn checksum_of_last_package_is_kept() {
    let releases = vec![release(
        "2.0.0",
        vec![
            asset("a.zip", "https://x/a.zip"),
            asset("b.zip", "https://x/b.zip"),
            asset("b.checksum", "https://x/b.checksum"),
        ],
    )];
    let u = run(&app("acme.app", "1.0.0"), &releases, &[("https://x/b.checksum", " bbbb\n")]).unwrap();
    assert_eq!(u.url, "https://x/b.zip");
    assert_eq!(u.checksum, Some("bbbb".to_string()));
}

#[test]
fn checksum_names_replace_only_the_suffix() {
    assert_eq!(checksum_file_name("foo.zip"), "foo.checksum");
    assert_eq!(checksum_file_name("a.zip.zip"), "a.zip.checksum");
    assert!(is_package_name("foo.zip"));
    assert!(!is_package_name("foo.zipx"));
}
