use repo_audit::credentials::load_github_credentials;
use repo_audit::client::{
    commits_url, interpret_commits_response, interpret_metadata_response, metadata_url, RepoInfo,
};
use repo_audit::report::{build_report, classify_severity, evaluate_repo, is_stale, Severity};
use repo_audit::scanner::{extract_github_repos, RepoId};
use repo_audit::AI;

fn id(org: &[u8], name: &[u8]) -> RepoId {
    RepoId { org: org.to_vec(), name: name.to_vec() }
}

fn info(popularity: u32, last_activity: &[u8]) -> RepoInfo {
    RepoInfo { popularity, last_activity: last_activity.to_vec() }
}

const ALLOWED: &[u8] =
    b"abcdefghijklmnopqrstuvwxyzABCDEFGHIJKLMNOPQRSTUVWXYZ0123456789_.-";

#[test]
fn single_identifier_extracted() {
    let repos = extract_github_repos(b"require github.com/acme/widgets v1.0.2");
    assert_eq!(repos.len(), 1);
    assert_eq!(repos[0].org, b"acme".to_vec());
    assert_eq!(repos[0].name, b"widgets".to_vec());
}

#[test]
fn duplicate_identifier_kept_twice() {
    let text = b"require github.com/acme/widgets v1\nrequire github.com/acme/widgets v2\n";
    let repos = extract_github_repos(text);
    assert_eq!(repos.len(), 2);
    for r in &repos {
        assert_eq!(r.org, b"acme".to_vec());
        assert_eq!(r.name, b"widgets".to_vec());
    }
}

#[test]
fn segments_satisfy_allowed_characters() {
    let text = b"github.com/has-dash.dot_under/Name0 github.com/x/y! tail";
    let repos = extract_github_repos(text);
    assert_eq!(repos.len(), 2);
    assert_eq!(repos[0].org, b"has-dash.dot_under".to_vec());
    assert_eq!(repos[0].name, b"Name0".to_vec());
    assert_eq!(repos[1].org, b"x".to_vec());
    assert_eq!(repos[1].name, b"y".to_vec());
    for r in &repos {
        assert!(!r.org.is_empty() && !r.name.is_empty());
        for b in r.org.iter().chain(r.name.iter()) {
            assert!(ALLOWED.contains(b));
        }
    }
}

#[test]
fn non_matching_text_yields_empty() {
    let text = b"github.org/a/b gitlab.com/x/y github.com/onlyorg github.com//noorg";
    let repos = extract_github_repos(text);
    assert_eq!(repos.len(), 0);
}

#[test]
fn match_may_start_inside_a_word() {
    let repos = extract_github_repos(b"xgithub.com/a/b");
    assert_eq!(repos.len(), 1);
    assert_eq!(repos[0].org, b"a".to_vec());
    assert_eq!(repos[0].name, b"b".to_vec());
}

#[test]
fn name_segment_stops_at_slash() {
    let repos = extract_github_repos(b"github.com/a/b/c");
    assert_eq!(repos.len(), 1);
    assert_eq!(repos[0].org, b"a".to_vec());
    assert_eq!(repos[0].name, b"b".to_vec());
}

#[test]
fn request_urls_for_identifier() {
    let r = id(b"acme", b"widgets");
    assert_eq!(metadata_url(&r), b"https://api.github.com/repos/acme/widgets".to_vec());
    assert_eq!(
        commits_url(&r),
        b"https://api.github.com/repos/acme/widgets/commits?per_page=1".to_vec()
    );
}

#[test]
fn credentials_loaded() {
    let creds = load_github_credentials(br#"{"username":"alice","token":"s3cr3t"}"#)
        .expect("credentials expected");
    assert_eq!(creds.username, b"alice".to_vec());
    assert_eq!(creds.token, b"s3cr3t".to_vec());
}

#[test]
fn credentials_with_extra_fields_loaded() {
    let creds =
        load_github_credentials(br#"{"other":"x","username":"u","token":"t"}"#).expect("expected");
    assert_eq!(creds.username, b"u".to_vec());
    assert_eq!(creds.token, b"t".to_vec());
}

#[test]
fn missing_token_fails() {
    assert!(load_github_credentials(br#"{"username":"u"}"#).is_none());
}

#[test]
fn missing_username_fails() {
    assert!(load_github_credentials(br#"{"token":"t"}"#).is_none());
}

#[test]
fn malformed_config_fails() {
    assert!(load_github_credentials(b"not json at all").is_none());
    assert!(load_github_credentials(b"[1,2,3]").is_none());
    assert!(load_github_credentials(br#"{"username":"u","token":5}"#).is_none());
}

#[test]
fn threshold_boundary_is_inclusive() {
    assert!(AI(5, 5));
    assert!(!AI(6, 5));
    assert!(AI(0, 0));
    assert!(AI(0, 100));
}

#[test]
fn severity_tier_boundaries() {
    assert_eq!(classify_severity(0), Severity::Highest);
    assert_eq!(classify_severity(9), Severity::Highest);
    assert_eq!(classify_severity(10), Severity::Medium);
    assert_eq!(classify_severity(49), Severity::Medium);
    assert_eq!(classify_severity(50), Severity::Lowest);
    assert_eq!(classify_severity(51), Severity::Lowest);
}

// 2020-01-01T00:00:00Z is epoch second 1_577_836_800; the staleness window
// is 94_608_000 seconds, so the boundary moment is 1_672_444_800.
#[test]
fn staleness_boundary() {
    let ts = b"2020-01-01T00:00:00Z";
    assert!(is_stale(ts, 1_672_444_801));
    assert!(!is_stale(ts, 1_672_444_800));
    assert!(!is_stale(ts, 1_672_444_799));
}

#[test]
fn offset_timestamp_is_normalized() {
    let ts = b"2020-01-01T01:00:00+01:00";
    assert!(is_stale(ts, 1_672_444_801));
    assert!(!is_stale(ts, 1_672_444_800));
}

#[test]
fn unparseable_timestamp_never_stale() {
    assert!(!is_stale(b"Unknown", i64::MAX));
    assert!(!is_stale(b"yesterday", i64::MAX));
    assert!(!is_stale(b"", 0));
}

#[test]
fn metadata_interpretation() {
    assert_eq!(interpret_metadata_response(true, br#"{"stargazers_count":42}"#), Some(42));
    assert_eq!(interpret_metadata_response(true, br#"{"stargazers_count":0}"#), Some(0));
    assert_eq!(interpret_metadata_response(false, br#"{"stargazers_count":42}"#), None);
    assert_eq!(interpret_metadata_response(true, b"oops"), None);
    assert_eq!(interpret_metadata_response(true, br#"{"other":1}"#), None);
    assert_eq!(interpret_metadata_response(true, br#"{"stargazers_count":-1}"#), None);
    assert_eq!(interpret_metadata_response(true, br#"{"stargazers_count":4294967296}"#), None);
}

#[test]
fn commits_interpretation() {
    let body = br#"[{"commit":{"committer":{"date":"2015-06-01T00:00:00Z"}}}]"#;
    assert_eq!(interpret_commits_response(true, body), b"2015-06-01T00:00:00Z".to_vec());
    assert_eq!(interpret_commits_response(true, b"[]"), b"Unknown".to_vec());
    assert_eq!(interpret_commits_response(true, b"bad"), b"Unknown".to_vec());
    assert_eq!(interpret_commits_response(false, body), b"Unknown".to_vec());
}

#[test]
fn failed_fetch_never_reported() {
    let items = vec![
        (id(b"gone", b"missing"), None),
        (id(b"acme", b"widgets"), Some(info(3, b"Unknown"))),
    ];
    let report = build_report(&items, u32::MAX, 0);
    assert_eq!(report.len(), 1);
    assert_eq!(report[0].org, b"acme".to_vec());
    let items2 = vec![(id(b"gone", b"missing"), None)];
    assert_eq!(build_report(&items2, u32::MAX, 0).len(), 0);
    assert_eq!(build_report(&items2, 0, 0).len(), 0);
}

#[test]
fn report_keeps_boundary_and_order() {
    let items = vec![
        (id(b"a", b"one"), Some(info(7, b"Unknown"))),
        (id(b"b", b"two"), Some(info(8, b"Unknown"))),
        (id(b"c", b"three"), Some(info(9, b"Unknown"))),
    ];
    let report = build_report(&items, 8, 0);
    assert_eq!(report.len(), 2);
    assert_eq!(report[0].name, b"one".to_vec());
    assert_eq!(report[0].popularity, 7);
    assert_eq!(report[1].name, b"two".to_vec());
    assert_eq!(report[1].popularity, 8);
}

#[test]
fn evaluate_repo_threshold() {
    let e = evaluate_repo(&id(b"a", b"b"), &info(5, b"Unknown"), 5, 0).expect("expected entry");
    assert_eq!(e.popularity, 5);
    assert_eq!(e.severity, Severity::Highest);
    assert!(!e.stale);
    assert!(evaluate_repo(&id(b"a", b"b"), &info(6, b"Unknown"), 5, 0).is_none());
}

// 2015-06-01T00:00:00Z is epoch second 1_433_116_800, about five years
// before the chosen "now" of 2020-06-01T00:00:00Z, epoch 1_590_969_600.
#[test]
fn end_to_end_two_stale_entries() {
    let manifest = b"require github.com/acme/widgets v1\nrequire github.com/acme/widgets v1\n";
    let repos = extract_github_repos(manifest);
    assert_eq!(repos.len(), 2);
    let creds =
        load_github_credentials(br#"{"username":"u","token":"t"}"#).expect("credentials expected");
    assert_eq!(creds.username, b"u".to_vec());
    let meta_body = br#"{"stargazers_count":5}"#;
    let commits_body = br#"[{"commit":{"committer":{"date":"2015-06-01T00:00:00Z"}}}]"#;
    let now: i64 = 1_590_969_600;
    let mut items = Vec::new();
    for repo in repos {
        let popularity = interpret_metadata_response(true, meta_body);
        let item_info = popularity
            .map(|count| RepoInfo {
                popularity: count,
                last_activity: interpret_commits_response(true, commits_body),
            });
        items.push((repo, item_info));
    }
    let report = build_report(&items, 100, now);
    assert_eq!(report.len(), 2);
    for e in &report {
        assert_eq!(e.org, b"acme".to_vec());
        assert_eq!(e.name, b"widgets".to_vec());
        assert_eq!(e.popularity, 5);
        assert_eq!(e.severity, Severity::Highest);
        assert!(e.stale);
        assert_eq!(e.last_activity, b"2015-06-01T00:00:00Z".to_vec());
    }
}
