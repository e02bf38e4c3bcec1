use movey::crawler::{
    after_failed_attempt, beautify_url, beautify_would_panic, crawl_page, packages_to_publish, pause_after,
    scrape_item, GithubSearchItem, GithubSearchRepository, END_PAGE, FIRST_PAGE,
};
use movey::repo::GithubRepoData;

fn data(name: &str, version: &str, url: &str) -> GithubRepoData {
    GithubRepoData {
        name: name.to_string(),
        version: version.to_string(),
        readme_content: "readme_content1".to_string(),
        license: "license1".to_string(),
        description: "".to_string(),
        size: 0,
        stars_count: 0,
        forks_count: 0,
        url: url.to_string(),
        rev: "".to_string(),
    }
}

#[test]
fn scrape_beautify_git_url() {
    let item = GithubSearchItem {
        repository: GithubSearchRepository { html_url: "https://github.com/alinush/aptos-core".to_string() },
        url: "".to_string(),
        path: "aptos-move/framework/move-stdlib/Move.toml".to_string(),
        html_url: "https://github.com/alinush/aptos-core/blob/xoxoxoxo/aptos-move/framework/move-stdlib/Move.toml"
            .to_string(),
    };
    let repo_data = scrape_item(data("MoveStdlib", "1.5.0", "master"), &item);
    assert_eq!(repo_data.name, "MoveStdlib");
    assert_eq!(repo_data.version, "1.5.0");
    assert_eq!(repo_data.readme_content, "readme_content1");
    assert_eq!(repo_data.description, "");
    assert_eq!(repo_data.size, 0);
    assert_eq!(
        repo_data.url,
        "https://github.com/alinush/aptos-core/tree/master/aptos-move/framework/move-stdlib"
    );
    assert_eq!(repo_data.rev, "");
}

#[test]
fn scraping_a_top_level_manifest_keeps_the_repository_url_and_reads_the_revision() {
    let item = GithubSearchItem {
        repository: GithubSearchRepository { html_url: "https://github.com/o/r".to_string() },
        url: "https://api.github.com/repositories/1/contents/Move.toml?ref=d594ba96".to_string(),
        path: "Move.toml".to_string(),
        html_url: "https://github.com/o/r/blob/d594ba96/Move.toml".to_string(),
    };
    let repo_data = scrape_item(data("P", "0.1.0", ""), &item);
    assert_eq!(repo_data.url, "https://github.com/o/r");
    assert_eq!(repo_data.rev, "d594ba96");
}

#[test]
fn beautifying_points_into_the_branch() {
    assert_eq!(
        beautify_url("https://github.com/o/r/blob/abc/dir", "main"),
        "https://github.com/o/r/tree/main/dir"
    );
    assert_eq!(beautify_url("https://github.com/o/r", "main"), "https://github.com/o/r");
    assert!(beautify_would_panic("https://x/blob/"));
    assert!(!beautify_would_panic("https://github.com/o/r/blob/abc/dir"));
    assert!(!beautify_would_panic("https://github.com/o/r"));
}

#[test]
fn the_crawl_cycles_through_ten_search_pages() {
    assert_eq!(FIRST_PAGE, 1);
    assert_eq!(END_PAGE, 120);
    assert_eq!(
        crawl_page(1),
        "https://api.github.com/search/code?q=package%20in:file%20extension:toml%20filename:Move%20language:TOML&per_page=100&page=2&order=desc&sort=indexed"
    );
    assert_eq!(
        crawl_page(61),
        "https://api.github.com/search/code?q=package%20in:file%20extension:toml%20filename:Move%20language:TOML&per_page=100&page=2&order=asc&sort=indexed"
    );
    assert!(crawl_page(19).contains("page=10&"));
    assert!(!pause_after(50));
    assert!(pause_after(51));
}

#[test]
fn failed_reads_are_reported_when_no_attempt_is_left() {
    assert_eq!(after_failed_attempt(3), (2, false));
    assert_eq!(after_failed_attempt(1), (0, true));
    assert_eq!(after_failed_attempt(0), (-1, false));
}

#[test]
fn save_to_db() {
    let found = vec![
        data("a", "1.0.0", "u1"),
        data("b", "not-semver", "u2"),
        data("a", "1.0.0", "u3"),
        data("a", "2.0.0", "u4"),
    ];
    let kept = packages_to_publish(&found);
    let urls: Vec<&str> = kept.iter().map(|d| d.url.as_str()).collect();
    assert_eq!(urls, vec!["u1", "u4"]);
}

#[test]
fn repository_data_are_equal_when_they_are_the_same_package() {
    assert!(data("a", "1.0.0", "u1") == data("a", "1.0.0", "u2"));
    assert!(data("a", "1.0.0", "u1") != data("a", "1.0.1", "u1"));
}
