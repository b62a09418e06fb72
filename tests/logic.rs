use noematic::manifest::{
    default_binary_path, Chromium, Firefox, ManifestPath, Platform, CHROMIUM_ALLOWED,
    FIREFOX_ALLOWED,
};
use noematic::markdown::parse_markdown;
use noematic::sanitize::{trim_spaces_of, QuerySanitizer};
use noematic::schema::{recorded_version, schema_step, version_from_columns, SchemaStep, SchemaVersion};
use noematic::store::paginate;
use noematic::web::{
    execute, Action, Request, ResponseAction, SavePayload, SearchPayload,
};

fn parts(v: &[&str]) -> Vec<String> {
    v.iter().map(|s| s.to_string()).collect()
}

#[test]
fn sanitizer_collapses_non_word_runs() {
    let s = QuerySanitizer::new().unwrap();
    assert_eq!(s.sanitize("\"\"foo-\"***bar\"\""), "foo bar");
    assert_eq!(s.sanitize("  hello,   world!! "), "hello world");
    assert_eq!(s.sanitize("quux"), "quux");
    assert_eq!(s.sanitize("snake_case"), "snake_case");
    assert_eq!(s.sanitize("***"), "");
    assert_eq!(s.sanitize(""), "");
}

#[test]
fn spaces_are_trimmed_at_both_ends_only() {
    assert_eq!(trim_spaces_of("  a b  "), "a b");
    assert_eq!(trim_spaces_of("   "), "");
    assert_eq!(trim_spaces_of("ab"), "ab");
    assert_eq!(trim_spaces_of(""), "");
}

#[test]
fn schema_steps_follow_the_recorded_version() {
    assert_eq!(schema_step(None), SchemaStep::Create);
    assert_eq!(schema_step(Some(SchemaVersion::new(0, 1, 0))), SchemaStep::Keep);
    let old = SchemaVersion::new(0, 0, 9);
    assert_eq!(schema_step(Some(old)), SchemaStep::Migrate(old));
    assert_eq!(schema_step(Some(SchemaVersion::new(0, 2, 0))), SchemaStep::Refuse);
    assert_eq!(schema_step(Some(SchemaVersion::new(1, 0, 0))), SchemaStep::Refuse);
    assert_eq!(schema_step(Some(SchemaVersion::new(0, 1, 1))), SchemaStep::Refuse);
}

#[test]
fn missing_or_empty_version_table_means_no_version() {
    let v = SchemaVersion::new(0, 1, 0);
    assert_eq!(recorded_version(false, false, None), None);
    assert_eq!(recorded_version(true, false, Some(v)), None);
    assert_eq!(recorded_version(true, true, Some(v)), Some(v));
    assert_eq!(version_from_columns(0, 1, 0), Some(v));
    assert_eq!(version_from_columns(-1, 1, 0), None);
    assert!(SchemaVersion::new(0, 0, 9).is_before(&SchemaVersion::current()));
    assert!(!SchemaVersion::current().is_before(&SchemaVersion::current()));
    assert_eq!((v.major(), v.minor(), v.patch()), (0, 1, 0));
}

#[test]
fn pagination_keeps_a_page_and_says_whether_more_follow() {
    let rows: Vec<(String, String, String)> = (0..3)
        .map(|i| (format!("u{}", i), format!("t{}", i), format!("s{}", i)))
        .collect();
    let (found, more) = paginate(&rows, 2);
    assert_eq!(found.len(), 2);
    assert!(more);
    assert_eq!(found[1].url.as_str(), "u1");
    assert_eq!(found[1].title.as_str(), "t1");
    assert_eq!(found[1].snippet.as_str(), "s1");
    let (found, more) = paginate(&rows, 3);
    assert_eq!(found.len(), 3);
    assert!(!more);
    let (found, more) = paginate(&rows, 0);
    assert_eq!(found.len(), 0);
    assert!(!more);
}

#[test]
fn manifests_name_the_host_and_its_callers() {
    let f = Firefox::new("/opt/bin/noematic");
    assert_eq!(f.name, "com.github.henrytill.noematic");
    assert_eq!(f.description, "Search your backlog");
    assert_eq!(f.path, "/opt/bin/noematic");
    assert_eq!(f.ty, "stdio");
    assert_eq!(f.allowed_extensions, [FIREFOX_ALLOWED]);
    let c = Chromium::new("/opt/bin/noematic");
    assert_eq!(c.path, "/opt/bin/noematic");
    assert_eq!(c.allowed_origins, [CHROMIUM_ALLOWED]);
    assert_eq!(noematic::manifest::file(), "com.github.henrytill.noematic.json");
}

#[test]
fn manifest_locations_per_browser() {
    let p = Firefox::path();
    assert_eq!(p.linux, parts(&[".mozilla", "native-messaging-hosts", "com.github.henrytill.noematic.json"]));
    assert_eq!(p.default, parts(&["manifests", "mozilla", "com.github.henrytill.noematic.json"]));
    let p = Chromium::path();
    assert_eq!(
        p.macos,
        parts(&["Library", "Application Support", "Chromium", "NativeMessagingHosts", "com.github.henrytill.noematic.json"])
    );
}

#[test]
fn manifest_path_depends_on_the_platform() {
    let home = parts(&["/home/me"]);
    let here = parts(&["/work"]);
    let linux = Firefox::path().for_platform(Platform::Linux, home.clone(), here.clone());
    assert_eq!(linux, parts(&["/home/me", ".mozilla", "native-messaging-hosts", "com.github.henrytill.noematic.json"]));
    let other = Chromium::path().for_platform(Platform::Other, home.clone(), here.clone());
    assert_eq!(other, parts(&["/work", "manifests", "chromium", "com.github.henrytill.noematic.json"]));
    let mac = ManifestPath { linux: vec![], macos: parts(&["a"]), default: vec![] }
        .for_platform(Platform::MacOs, home, here);
    assert_eq!(mac, parts(&["/home/me", "a"]));
}

#[test]
fn binary_path_is_under_bin() {
    assert_eq!(default_binary_path(parts(&["/usr", "local"])), parts(&["/usr", "local", "bin", "noematic"]));
}

#[test]
fn web_host_answers_with_placeholders() {
    let r = execute(Request {
        version: 0,
        action: Action::SaveRequest {
            payload: SavePayload { title: "T".to_string(), inner_text: "x".to_string() },
        },
        correlation_id: "id-1".to_string(),
    });
    assert_eq!(r.correlation_id, "id-1");
    match r.action {
        ResponseAction::SaveResponse { payload } => {
            assert_eq!(payload.status, "Success");
            assert_eq!(payload.details, "Item saved");
        }
        other => panic!("unexpected {:?}", other),
    }
    let r = execute(Request {
        version: 3,
        action: Action::SearchRequest { payload: SearchPayload { query: "q".to_string() } },
        correlation_id: "id-2".to_string(),
    });
    assert_eq!(r.version, 3);
    match r.action {
        ResponseAction::SearchResponse { payload } => {
            assert_eq!(payload.results, vec!["Item1".to_string(), "Item2".to_string()]);
        }
        other => panic!("unexpected {:?}", other),
    }
}

const HELLO_WORLD_MD: &str = r#"
    # Hello World

    This is a test
    "#;

#[test]
fn it_works() {
    assert!(parse_markdown(HELLO_WORLD_MD).is_ok());
}

#[test]
fn empty_text_has_no_markdown() {
    assert!(parse_markdown("").is_err());
}
