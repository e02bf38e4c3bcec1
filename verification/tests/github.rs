use movey::github::{
    absolute_links_of, api_url_of, commits_url_of, description_of, manifest_url_of, readme_url_of, FetchAction,
    FetchEvent, GithubLicenseInfo, GithubRepoInfo, RepoFetch,
};

type E = String;

fn info(description: Option<&str>, branch: &str) -> GithubRepoInfo {
    GithubRepoInfo {
        description: description.map(|d| d.to_string()),
        size: 10,
        stargazers_count: 4,
        forks_count: 2,
        default_branch: branch.to_string(),
        license: Some(GithubLicenseInfo {
            key: "mit".to_string(),
            name: "MIT License".to_string(),
            url: "https://api.github.com/licenses/mit".to_string(),
        }),
    }
}

#[test]
fn github_urls_are_derived_from_the_repository_url() {
    assert_eq!(api_url_of("https://github.com/o/r"), "https://api.github.com/repos/o/r");
    assert_eq!(commits_url_of("https://github.com/o/r"), "https://api.github.com/repos/o/r/commits");
    assert_eq!(readme_url_of("https://github.com/o/r", "abc"), "https://raw.githubusercontent.com/o/r/abc/README.md");
    let readme = "https://raw.githubusercontent.com/o/r/abc/README.md";
    assert_eq!(manifest_url_of(readme, &None), "https://raw.githubusercontent.com/o/r/abc/Move.toml");
    assert_eq!(
        manifest_url_of(readme, &Some("sub/Move.toml".to_string())),
        "https://raw.githubusercontent.com/o/r/abc/sub/Move.toml"
    );
}

#[test]
fn relative_readme_links_are_made_absolute() {
    let readme = "https://raw.githubusercontent.com/o/r/abc/README.md";
    let content = "![logo](img/logo.png) [site](https://x.io) <img src=\"a.png\"> <img src=\"http://y/b.png\">";
    assert_eq!(
        absolute_links_of(content, readme),
        "![logo](https://raw.githubusercontent.com/o/r/abc/img/logo.png) [site](https://x.io) <img src=\"https://raw.githubusercontent.com/o/r/abc/a.png\"> <img src=\"http://y/b.png\">"
    );
}

#[test]
fn descriptions_are_plain_text_cut_to_a_hundred_characters() {
    assert_eq!(description_of("**Bold** summary", "ignored"), "Bold summary");
    assert_eq!(description_of("", "# Title"), "Title\n");
    let long = "x".repeat(150);
    assert_eq!(description_of(&long, "").chars().count(), 100);
}

#[test]
fn fetch_repo_data_reads_the_latest_commit_when_no_revision_is_given() {
    let (s, a) = RepoFetch::new::<E>("https://github.com/o/r", None, None);
    assert!(matches!(a, FetchAction::GetRepoInfo { ref url } if url == "https://api.github.com/repos/o/r"));
    let (s, a) = s.step::<E>(FetchEvent::RepoInfo(info(Some("A package"), "")));
    assert!(matches!(a, FetchAction::GetLatestCommit { ref url } if url == "https://api.github.com/repos/o/r/commits"));
    let (s, a) = s.step::<E>(FetchEvent::LatestCommit(Some("abc".to_string())));
    assert!(matches!(a, FetchAction::GetReadme { ref url } if url == "https://raw.githubusercontent.com/o/r/abc/README.md"));
    let (s, a) = s.step::<E>(FetchEvent::Readme { found: true, body: Some("hello ![x](y.png)".to_string()) });
    assert!(matches!(a, FetchAction::GetManifest { ref url } if url == "https://raw.githubusercontent.com/o/r/abc/Move.toml"));
    let (_, a) = s.step::<E>(FetchEvent::Manifest(Some(("name1".to_string(), "0.1.0".to_string()))));
    match a {
        FetchAction::Done(d) => {
            assert_eq!(d.name, "name1");
            assert_eq!(d.version, "0.1.0");
            assert_eq!(d.description, "A package");
            assert_eq!(d.license, "MIT License");
            assert_eq!(d.url, "master");
            assert_eq!(d.rev, "abc");
            assert_eq!(d.size, 10);
            assert_eq!(d.stars_count, 4);
            assert_eq!(d.forks_count, 2);
            assert_eq!(d.readme_content, "hello ![x](https://raw.githubusercontent.com/o/r/abc/y.png)");
        }
        _ => panic!("expected the data"),
    }
}

#[test]
fn a_repository_without_description_is_summarised() {
    let (s, _) = RepoFetch::new::<E>("https://github.com/o/r", Some("sub/Move.toml".to_string()), Some("rev1".to_string()));
    let (s, a) = s.step::<E>(FetchEvent::RepoInfo(info(None, "main")));
    assert!(matches!(a, FetchAction::GetReadme { .. }));
    let (s, a) = s.step::<E>(FetchEvent::Readme { found: true, body: Some("# Readme".to_string()) });
    assert!(matches!(a, FetchAction::Summarize { ref text } if text == "# Readme"));
    let (s, a) = s.step::<E>(FetchEvent::Summary("A short summary".to_string()));
    assert!(matches!(a, FetchAction::GetManifest { ref url } if url == "https://raw.githubusercontent.com/o/r/rev1/sub/Move.toml"));
    let (_, a) = s.step::<E>(FetchEvent::Manifest(None));
    match a {
        FetchAction::Done(d) => {
            assert_eq!(d.description, "A short summary");
            assert_eq!(d.name, "");
            assert_eq!(d.url, "main");
            assert_eq!(d.rev, "rev1");
        }
        _ => panic!("expected the data"),
    }
}

#[test]
fn fetch_repo_data_works() {
    let repo_url = "http://127.0.0.1:5000/EastAgile/ea-movey".to_string();
    let (s, a) = RepoFetch::new::<E>(&repo_url, None, Some("rev".to_string()));
    assert!(matches!(a, FetchAction::GetRepoInfo { ref url } if *url == repo_url));
    let repo_info = GithubRepoInfo {
        description: Some("test description".to_string()),
        size: 10,
        stargazers_count: 20,
        forks_count: 30,
        default_branch: "test-default-branch".to_string(),
        license: None,
    };
    let (s, a) = s.step::<E>(FetchEvent::RepoInfo(repo_info));
    assert!(matches!(a, FetchAction::GetReadme { ref url } if *url == format!("{}/rev/README.md", repo_url)));
    let body = "test readme content - <img src=\"one\" /> - <img src=\"http://two\" /> - [three](three) - [four](http://four)";
    let (s, a) = s.step::<E>(FetchEvent::Readme { found: true, body: Some(body.to_string()) });
    assert!(matches!(a, FetchAction::GetManifest { ref url } if *url == format!("{}/rev/Move.toml", repo_url)));
    let (_, a) = s.step::<E>(FetchEvent::Manifest(Some(("test package name".to_string(), "0.0.0".to_string()))));
    let expected_readme_content = format!(
        "test readme content - <img src=\"{}/rev/one\" /> - <img src=\"http://two\" /> - [three]({}/rev/three) - [four](http://four)",
        &repo_url, &repo_url
    );
    match a {
        FetchAction::Done(gh_repo_data) => {
            assert_eq!(gh_repo_data.name, "test package name");
            assert_eq!(gh_repo_data.version, "0.0.0");
            assert_eq!(gh_repo_data.readme_content, expected_readme_content);
            assert_eq!(gh_repo_data.description, "test description");
            assert_eq!(gh_repo_data.size, 10);
            assert_eq!(gh_repo_data.stars_count, 20);
            assert_eq!(gh_repo_data.forks_count, 30);
            assert_eq!(gh_repo_data.url, "test-default-branch");
            assert_eq!(gh_repo_data.rev, "rev");
        }
        _ => panic!("expected the data"),
    }
}
