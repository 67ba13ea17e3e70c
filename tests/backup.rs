use github_backup::archive::{archive_url, archive_urls, file_name_from_disposition, Repo};
use github_backup::download::{
    after_fetch, after_resolve, after_write, Disposition, ResolveStep, Resolved,
};
use github_backup::error::BackupError;
use github_backup::headers::{api_headers, bearer_credential, ACCEPT_VALUE, USER_AGENT_VALUE};
use github_backup::listing::{after_listing, Listing, REPOS_URL};
use github_backup::text::replace_all;

fn repo(template: &str, branch: &str) -> Repo {
    Repo { archive_url: template.to_string(), default_branch: branch.to_string() }
}

#[test]
fn substitutes_both_placeholders() {
    let url = archive_url("https://h/x/{archive_format}/y{/ref}?q", "dev");
    assert_eq!(url, "https://h/x/zipball/y/dev?q");
}

#[test]
fn template_without_placeholders_is_unchanged() {
    assert_eq!(archive_url("https://h/plain", "main"), "https://h/plain");
}

#[test]
fn every_occurrence_is_substituted() {
    let url = archive_url("{archive_format}-{archive_format}{/ref}{/ref}", "b");
    assert_eq!(url, "zipball-zipball/b/b");
}

#[test]
fn branch_text_is_not_rescanned() {
    assert_eq!(archive_url("a{/ref}", "{/ref}"), "a/{/ref}");
}

#[test]
fn stub_listing_round_trip() {
    let repos = vec![repo("https://api.example.com/repos/u/r/{archive_format}{/ref}", "main")];
    let urls = after_listing(Listing::Repos(repos)).unwrap();
    assert_eq!(urls, vec!["https://api.example.com/repos/u/r/zipball/main".to_string()]);
}

#[test]
fn listing_keeps_order() {
    let repos = vec![
        repo("https://a/{archive_format}{/ref}", "one"),
        repo("https://b/{archive_format}{/ref}", "two"),
        repo("https://c/{archive_format}{/ref}", "three"),
    ];
    let urls = archive_urls(&repos);
    assert_eq!(
        urls,
        vec![
            "https://a/zipball/one".to_string(),
            "https://b/zipball/two".to_string(),
            "https://c/zipball/three".to_string(),
        ]
    );
}

#[test]
fn empty_listing_gives_no_urls() {
    assert_eq!(after_listing(Listing::Repos(Vec::new())), Ok(Vec::new()));
}

#[test]
fn malformed_listing_is_a_parse_error() {
    let r = after_listing(Listing::Malformed("expected a sequence".to_string()));
    assert_eq!(r, Err(BackupError::Parse("expected a sequence".to_string())));
}

#[test]
fn unreachable_listing_is_a_transport_error() {
    let r = after_listing(Listing::Unreachable("connection refused".to_string()));
    assert_eq!(r, Err(BackupError::Transport("connection refused".to_string())));
}

#[test]
fn file_name_from_quoted_disposition() {
    let name = file_name_from_disposition("attachment; filename=\"myrepo-main-abc1234.zip\"");
    assert_eq!(name, "myrepo-main-abc1234.zip");
}

#[test]
fn file_name_from_unquoted_disposition() {
    assert_eq!(file_name_from_disposition("attachment; filename=r.zip"), "r.zip");
}

#[test]
fn missing_disposition_means_empty_repository() {
    let step = after_resolve(Ok(Resolved {
        final_url: "https://codeload.example.com/u/r/zip".to_string(),
        content_disposition: Disposition::Absent,
    }));
    assert!(matches!(step, ResolveStep::Empty));
}

#[test]
fn disposition_leads_to_fetch_of_final_url() {
    let step = after_resolve(Ok(Resolved {
        final_url: "https://codeload.example.com/u/r/zip?token=x".to_string(),
        content_disposition: Disposition::Text("attachment; filename=\"r-main-1a2b.zip\"".to_string()),
    }));
    match step {
        ResolveStep::Fetch { url, file_name } => {
            assert_eq!(url, "https://codeload.example.com/u/r/zip?token=x");
            assert_eq!(file_name, "r-main-1a2b.zip");
        }
        _ => panic!("expected a fetch"),
    }
}

#[test]
fn resolve_failure_is_a_transport_error() {
    match after_resolve(Err("connection reset".to_string())) {
        ResolveStep::Failed(e) => assert_eq!(e, BackupError::Transport("connection reset".to_string())),
        _ => panic!("expected a failure"),
    }
}

#[test]
fn fetch_failure_is_a_transport_error() {
    let r = after_fetch("r.zip".to_string(), Err("timed out".to_string()));
    match r {
        Err(e) => assert_eq!(e, BackupError::Transport("timed out".to_string())),
        Ok(_) => panic!("expected a failure"),
    }
}

#[test]
fn fetched_bytes_go_to_the_named_file() {
    let w = match after_fetch("r.zip".to_string(), Ok(vec![80, 75, 3, 4])) {
        Ok(w) => w,
        Err(_) => panic!("expected a write"),
    };
    assert_eq!(w.file_name, "r.zip");
    assert_eq!(w.bytes, vec![80, 75, 3, 4]);
}

#[test]
fn same_download_twice_writes_the_same_file() {
    let first = after_fetch("r.zip".to_string(), Ok(vec![1, 2, 3])).ok().unwrap();
    let second = after_fetch("r.zip".to_string(), Ok(vec![1, 2, 3])).ok().unwrap();
    assert_eq!(first.file_name, second.file_name);
    assert_eq!(first.bytes, second.bytes);
}

#[test]
fn write_failure_is_an_io_error() {
    assert_eq!(after_write(Err("disk full".to_string())), Err(BackupError::Io("disk full".to_string())));
    assert_eq!(after_write(Ok(())), Ok(()));
}

#[test]
fn headers_for_a_plain_token() {
    let h = match api_headers("ghp_abc123") {
        Ok(h) => h,
        Err(_) => panic!("expected headers"),
    };
    assert_eq!(h.authorization, "Bearer ghp_abc123");
    assert_eq!(h.accept, "application/vnd.github+json");
    assert_eq!(h.user_agent, "github-backup");
    assert_eq!(ACCEPT_VALUE, "application/vnd.github+json");
    assert_eq!(USER_AGENT_VALUE, "github-backup");
}

#[test]
fn token_with_tab_is_accepted() {
    assert!(api_headers("a\tb").is_ok());
}

#[test]
fn token_with_newline_is_refused() {
    assert!(matches!(api_headers("abc\n"), Err(BackupError::InvalidToken)));
}

#[test]
fn token_with_delete_is_refused() {
    assert!(matches!(api_headers("abc\u{7f}"), Err(BackupError::InvalidToken)));
}

#[test]
fn bearer_credential_prefixes_token() {
    assert_eq!(bearer_credential("xyz"), "Bearer xyz");
}

#[test]
fn replace_is_non_overlapping_from_the_left() {
    assert_eq!(replace_all("aaa", "aa", "b"), "ba");
    assert_eq!(replace_all("", "x", "y"), "");
    assert_eq!(replace_all("héllo wörld", "ö", "o"), "héllo world");
}

#[test]
fn listing_url_asks_for_owned_repositories() {
    assert_eq!(
        REPOS_URL,
        "https://api.github.com/user/repos?per_page=100&type=owner&page=1&sort=updated"
    );
}

#[test]
fn unreadable_disposition_is_its_own_error() {
    let step = after_resolve(Ok(Resolved {
        final_url: "https://codeload.example.com/u/r/zip".to_string(),
        content_disposition: Disposition::Unreadable("failed to convert header to a str".to_string()),
    }));
    match step {
        ResolveStep::Failed(e) => assert_eq!(
            e,
            BackupError::UnreadableHeader("failed to convert header to a str".to_string())
        ),
        _ => panic!("expected a failure"),
    }
}
