use movey::repo::GithubRepoData;
use movey::upload::{
    download_reply, hints_text, published_url_of, trim_newline, upload_manifest_path, HttpStatus,
    RegisterPackage, StoreOutcome, TextReply, UploadAction, UploadEvent,
};

fn data(name: &str, version: &str, rev: &str) -> GithubRepoData {
    GithubRepoData {
        name: name.to_string(),
        version: version.to_string(),
        readme_content: "readme".to_string(),
        license: "MIT".to_string(),
        description: "a package".to_string(),
        size: 12,
        stars_count: 3,
        forks_count: 1,
        url: "main".to_string(),
        rev: rev.to_string(),
    }
}

fn reply_of(action: UploadAction) -> TextReply {
    match action {
        UploadAction::Reply(r) => r,
        _ => panic!("expected a reply"),
    }
}

fn through_token(url: &str, subdir: &str) -> (RegisterPackage, UploadAction) {
    let (s, a) = RegisterPackage::new(url, subdir, 7);
    assert!(matches!(a, UploadAction::GetPool));
    let (s, a) = s.step(UploadEvent::Pool(true));
    assert!(matches!(a, UploadAction::CheckToken));
    let (s, a) = s.step(UploadEvent::Token(true));
    assert!(matches!(a, UploadAction::FindTokenAccount));
    s.step(UploadEvent::TokenAccount(Some(42)))
}

#[test]
fn register_package_returns_error_when_database_is_not_available() {
    let (s, _) = RegisterPackage::new("", "", 0);
    let (_, a) = s.step(UploadEvent::Pool(false));
    let r = reply_of(a);
    assert_eq!(r.status, HttpStatus::InternalServerError);
    assert_eq!(r.body, "Something went wrong, please try again later.");
}

#[test]
fn register_package_returns_error_with_invalid_token() {
    let (s, _) = RegisterPackage::new("", "", 0);
    let (s, _) = s.step(UploadEvent::Pool(true));
    let (_, a) = s.step(UploadEvent::Token(false));
    let r = reply_of(a);
    assert_eq!(r.status, HttpStatus::BadRequest);
    assert_eq!(r.body, "Invalid API token.");

    let (s, _) = RegisterPackage::new("", "", 0);
    let (s, _) = s.step(UploadEvent::Pool(true));
    let (s, _) = s.step(UploadEvent::Token(true));
    let (_, a) = s.step(UploadEvent::TokenAccount(None));
    let r = reply_of(a);
    assert_eq!(r.status, HttpStatus::BadRequest);
    assert_eq!(r.body, "Invalid API token.");
}

#[test]
fn register_package_create_new_packages() {
    let (s, a) = through_token("", "");
    match a {
        UploadAction::FetchRepo { url, path } => {
            assert_eq!(url, "");
            assert_eq!(path, None);
        }
        _ => panic!("expected a fetch"),
    }
    let (s, a) = s.step(UploadEvent::Fetched(Some(data("name1", "0.1.0", "abc"))));
    match a {
        UploadAction::Publish { url, total_files, account_id, data } => {
            assert_eq!(url, "");
            assert_eq!(total_files, 7);
            assert_eq!(account_id, 42);
            assert_eq!(data.name, "name1");
        }
        _ => panic!("expected a publication"),
    }
    let (_, a) = s.step(UploadEvent::Stored(StoreOutcome::Stored));
    let r = reply_of(a);
    assert_eq!(r.status, HttpStatus::Success);
    assert_eq!(r.body, "name1");
}

#[test]
fn upload_in_a_sub_directory_reads_its_manifest_and_publishes_its_url() {
    let (s, a) = through_token("https://github.com/o/r", "tools/\n");
    match a {
        UploadAction::FetchRepo { url, path } => {
            assert_eq!(url, "https://github.com/o/r");
            assert_eq!(path, Some("tools/Move.toml".to_string()));
        }
        _ => panic!("expected a fetch"),
    }
    let (_, a) = s.step(UploadEvent::Fetched(Some(data("name1", "0.1.0", "abc"))));
    match a {
        UploadAction::Publish { url, .. } => assert_eq!(url, "https://github.com/o/r/blob/abc/tools/"),
        _ => panic!("expected a publication"),
    }
}

#[test]
fn upload_refuses_invalid_names_and_versions_with_hints() {
    let (s, _) = through_token("https://github.com/o/r", "");
    let (_, a) = s.step(UploadEvent::Fetched(Some(data("bad name", "1.0", "abc"))));
    let r = reply_of(a);
    assert_eq!(r.status, HttpStatus::BadRequest);
    assert_eq!(
        r.body,
        "Cannot upload package.\nHints: Package name should only contain alphanumeric characters connected by hyphens or underscores; Package version should adhere to semantic versioning (see https://semver.org)."
    );
}

#[test]
fn upload_reports_an_unreadable_repository() {
    let (s, _) = through_token("https://github.com/o/r", "");
    let (_, a) = s.step(UploadEvent::Fetched(None));
    let r = reply_of(a);
    assert_eq!(r.status, HttpStatus::NotFound);
    assert_eq!(r.body, "Cannot get package info from Github.");
}

#[test]
fn upload_reports_an_existing_version_and_other_store_failures() {
    let (s, _) = through_token("https://github.com/o/r", "");
    let (s, _) = s.step(UploadEvent::Fetched(Some(data("name1", "0.1.0", "abc"))));
    let (_, a) = s.step(UploadEvent::Stored(StoreOutcome::UniqueViolation { domain: "https://movey.net".to_string() }));
    let r = reply_of(a);
    assert_eq!(r.status, HttpStatus::BadRequest);
    assert_eq!(
        r.body,
        "Cannot upload package.\nVersion already exists for package at https://movey.net/packages/name1. Please commit your changes to Github and try again."
    );

    let (s, _) = through_token("https://github.com/o/r", "");
    let (s, _) = s.step(UploadEvent::Fetched(Some(data("name1", "0.1.0", "abc"))));
    let (_, a) = s.step(UploadEvent::Stored(StoreOutcome::DatabaseFailure));
    let r = reply_of(a);
    assert_eq!(r.status, HttpStatus::BadRequest);
    assert_eq!(r.body, "Cannot upload package.\nSomething went wrong, please try again later.");

    let (s, _) = through_token("https://github.com/o/r", "");
    let (s, _) = s.step(UploadEvent::Fetched(Some(data("name1", "0.1.0", "abc"))));
    let (_, a) = s.step(UploadEvent::Stored(StoreOutcome::OtherFailure));
    let r = reply_of(a);
    assert_eq!(r.status, HttpStatus::Success);
    assert_eq!(r.body, "name1");
}

#[test]
fn upload_helpers_follow_the_request() {
    assert_eq!(trim_newline("tools\n"), "tools");
    assert_eq!(trim_newline("tools\n\n"), "tools\n");
    assert_eq!(trim_newline("tools"), "tools");
    assert_eq!(upload_manifest_path(""), None);
    assert_eq!(upload_manifest_path("a/"), Some("a/Move.toml".to_string()));
    assert_eq!(published_url_of("u", "r", ""), "u");
    assert_eq!(published_url_of("u", "r", "s"), "u/blob/r/s");
    assert_eq!(hints_text(&vec!["one"]), "Cannot upload package.\nHints: one.");
}

#[test]
fn increase_download_count_returns_error_with_empty_rev() {
    let r = download_reply("https://github.com/move-language/move", "", true, Some(2));
    assert_eq!(r.status, HttpStatus::BadRequest);
    assert_eq!(r.body, "Invalid git info.");
}

#[test]
fn increase_download_count_returns_error_with_empty_url() {
    let r = download_reply("", "a8383d88fa48f4e1e0e91264cffbbd27136e4732", true, Some(2));
    assert_eq!(r.status, HttpStatus::BadRequest);
    assert_eq!(r.body, "Invalid git info.");
}

#[test]
fn increase_download_count_returns_error_when_database_is_not_available() {
    let r = download_reply(
        "https://github.com/move-language/move",
        "a8383d88fa48f4e1e0e91264cffbbd27136e4732",
        false,
        None,
    );
    assert_eq!(r.status, HttpStatus::InternalServerError);
    assert_eq!(r.body, "Something went wrong, please try again later.");
}

#[test]
fn increase_download_count_works() {
    let r = download_reply(
        "https://github.com/move-language/move",
        "a8383d88fa48f4e1e0e91264cffbbd27136e4732",
        true,
        Some(2),
    );
    assert_eq!(r.status, HttpStatus::Success);
    assert_eq!(r.body, "2");
    let missing = download_reply("https://github.com/a/b", "abc", true, None);
    assert_eq!(missing.status, HttpStatus::NotFound);
    assert_eq!(missing.body, "Cannot find url or rev.");
}
