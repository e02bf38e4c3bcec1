use movey::downloads::{
    manifest_path, normalize_repo_url, url_of_subdir, DownloadAction, DownloadEvent, DownloadFlow, PackageLookup,
};
use movey::publish::VersionLookup;
use movey::repo::GithubRepoData;

type E = String;

fn data() -> GithubRepoData {
    GithubRepoData {
        name: "name1".to_string(),
        version: "0.1.0".to_string(),
        readme_content: "r".to_string(),
        license: "l".to_string(),
        description: "d".to_string(),
        size: 3,
        stars_count: 0,
        forks_count: 0,
        url: "main".to_string(),
        rev: "a8383d88".to_string(),
    }
}

#[test]
fn ssh_urls_become_https_urls() {
    assert_eq!(normalize_repo_url("git@github.com:move-language/move.git"), "https://github.com/move-language/move");
    assert_eq!(normalize_repo_url("https://github.com/o/r.git"), "https://github.com/o/r");
    assert_eq!(normalize_repo_url("https://github.com/o/r"), "https://github.com/o/r");
    assert_eq!(manifest_path("/tools"), "/tools/Move.toml");
    assert_eq!(url_of_subdir("u", "r", "s"), "u/blob/r/s");
}

#[test]
fn a_known_version_counts_the_version_then_the_package() {
    let (s, a) = DownloadFlow::new::<E>("https://github.com/move-language/move", "a8383d88", "");
    assert!(matches!(a, DownloadAction::FindPackage { ref url } if url == "https://github.com/move-language/move"));
    let (s, a) = s.step::<E>(DownloadEvent::PackageLookup(PackageLookup::Found(9)));
    assert!(matches!(a, DownloadAction::FindVersion { package_id: 9, ref rev } if rev == "a8383d88"));
    let (s, a) = s.step::<E>(DownloadEvent::VersionLookup(VersionLookup::Found));
    assert!(matches!(a, DownloadAction::CountVersionDownload { package_id: 9, .. }));
    let (s, a) = s.step::<E>(DownloadEvent::Updated(1));
    assert!(matches!(a, DownloadAction::CountPackageDownload { package_id: 9 }));
    let (_, a) = s.step::<E>(DownloadEvent::Updated(1));
    assert!(matches!(a, DownloadAction::Done(2)));
}

#[test]
fn increase_download_count_creates_shadow_package_when_package_version_not_existed() {
    let (s, _) = DownloadFlow::new::<E>("https://github.com/move-language/move", "a8383d88", "/tools");
    let (s, a) = s.step::<E>(DownloadEvent::PackageLookup(PackageLookup::NotFound));
    match a {
        DownloadAction::FetchRepo { url, path, revision } => {
            assert_eq!(url, "https://github.com/move-language/move");
            assert_eq!(path, Some("/tools/Move.toml".to_string()));
            assert_eq!(revision, Some("a8383d88".to_string()));
        }
        _ => panic!("expected a fetch"),
    }
    let (s, a) = s.step::<E>(DownloadEvent::Fetched(data()));
    match a {
        DownloadAction::CreateShadowPackage { url, rev, total_files, .. } => {
            assert_eq!(url, "https://github.com/move-language/move/blob/a8383d88//tools");
            assert_eq!(rev, "a8383d88");
            assert_eq!(total_files, -1);
        }
        _ => panic!("expected a shadow package"),
    }
    let (s, a) = s.step::<E>(DownloadEvent::ShadowCreated(4));
    assert!(matches!(a, DownloadAction::CountVersionDownload { package_id: 4, .. }));
    let (s, _) = s.step::<E>(DownloadEvent::Updated(1));
    let (_, a) = s.step::<E>(DownloadEvent::Updated(1));
    assert!(matches!(a, DownloadAction::Done(2)));
}

#[test]
fn a_missing_version_is_created_from_the_repository() {
    let (s, _) = DownloadFlow::new::<E>("https://github.com/o/r", "abc", "");
    let (s, _) = s.step::<E>(DownloadEvent::PackageLookup(PackageLookup::Found(9)));
    let (s, a) = s.step::<E>(DownloadEvent::VersionLookup(VersionLookup::NotFound));
    match a {
        DownloadAction::FetchRepo { path, revision, .. } => {
            assert_eq!(path, None);
            assert_eq!(revision, Some("abc".to_string()));
        }
        _ => panic!("expected a fetch"),
    }
    let (s, a) = s.step::<E>(DownloadEvent::Fetched(data()));
    assert!(matches!(a, DownloadAction::CreateVersion { package_id: 9, total_files: -1, .. }));
    let (_, a) = s.step::<E>(DownloadEvent::VersionCreated);
    assert!(matches!(a, DownloadAction::CountVersionDownload { package_id: 9, .. }));
}

#[test]
fn a_failure_ends_the_count() {
    let (s, _) = DownloadFlow::new::<E>("https://github.com/o/r", "abc", "");
    let (s, a) = s.step::<E>(DownloadEvent::Failed("db".to_string()));
    assert!(matches!(a, DownloadAction::Fail(_)));
    let (_, a) = s.step::<E>(DownloadEvent::Updated(1));
    assert!(matches!(a, DownloadAction::Stay));
}

/// A small in-memory database that carries out the actions of a count.
struct Store {
    /// (id, url, total downloads)
    packages: Vec<(i32, String, i64)>,
    /// (package id, rev, downloads)
    versions: Vec<(i32, String, i64)>,
    fetches: usize,
}

impl Store {
    fn new() -> Store {
        Store { packages: Vec::new(), versions: Vec::new(), fetches: 0 }
    }

    fn count(&mut self, url: &str, rev: &str) -> usize {
        let (mut flow, mut action) = DownloadFlow::new::<E>(url, rev, "");
        loop {
            let event = match action {
                DownloadAction::FindPackage { url } => DownloadEvent::PackageLookup(
                    match self.packages.iter().find(|p| p.1 == url) {
                        Some(p) => PackageLookup::Found(p.0),
                        None => PackageLookup::NotFound,
                    },
                ),
                DownloadAction::FindVersion { package_id, rev } => DownloadEvent::VersionLookup(
                    if self.versions.iter().any(|v| v.0 == package_id && v.1 == rev) {
                        VersionLookup::Found
                    } else {
                        VersionLookup::NotFound
                    },
                ),
                DownloadAction::FetchRepo { .. } => {
                    self.fetches += 1;
                    DownloadEvent::Fetched(mock_data())
                }
                DownloadAction::CreateVersion { package_id, rev, .. } => {
                    self.versions.push((package_id, rev, 0));
                    DownloadEvent::VersionCreated
                }
                DownloadAction::CreateShadowPackage { url, rev, .. } => {
                    let id = self.packages.len() as i32 + 1;
                    self.packages.push((id, url, 0));
                    self.versions.push((id, rev, 0));
                    DownloadEvent::ShadowCreated(id)
                }
                DownloadAction::CountVersionDownload { package_id, rev } => {
                    let mut n = 0;
                    for v in self.versions.iter_mut() {
                        if v.0 == package_id && v.1 == rev {
                            v.2 += 1;
                            n += 1;
                        }
                    }
                    DownloadEvent::Updated(n)
                }
                DownloadAction::CountPackageDownload { package_id } => {
                    let mut n = 0;
                    for p in self.packages.iter_mut() {
                        if p.0 == package_id {
                            p.2 += 1;
                            n += 1;
                        }
                    }
                    DownloadEvent::Updated(n)
                }
                DownloadAction::Done(n) => return n,
                DownloadAction::Fail(e) => panic!("{}", e),
                DownloadAction::Stay => panic!("stuck"),
            };
            let (f, a) = flow.step::<E>(event);
            flow = f;
            action = a;
        }
    }

    fn version_downloads(&self, package_id: i32, rev: &str) -> i64 {
        self.versions.iter().find(|v| v.0 == package_id && v.1 == rev).unwrap().2
    }
}

fn mock_data() -> GithubRepoData {
    GithubRepoData {
        name: "name".to_string(),
        version: "first_version".to_string(),
        readme_content: "first_readme_content".to_string(),
        license: "".to_string(),
        description: "".to_string(),
        size: 0,
        stars_count: 0,
        forks_count: 0,
        url: "".to_string(),
        rev: "".to_string(),
    }
}

#[test]
fn tests_increase_download_count_works() {
    let url = "https://github.com/eadungn/taohe";
    let rev = "30d4792b29330cf701af04b493a38a82102ed4fd";
    let mut store = Store::new();
    store.packages.push((1, url.to_string(), 0));
    store.versions.push((1, rev.to_string(), 0));
    assert_eq!(store.version_downloads(1, rev), 0);
    assert_eq!(store.count(url, rev), 2);
    assert_eq!(store.packages[0].2, 1);
    assert_eq!(store.count(url, rev), 2);
    assert_eq!(store.packages[0].2, 2);
    assert_eq!(store.version_downloads(1, rev), 2);
    assert_eq!(store.count("git@github.com:eadungn/taohe.git", rev), 2);
    assert_eq!(store.packages[0].2, 3);
    assert_eq!(store.version_downloads(1, rev), 3);
    assert_eq!(store.count("https://github.com/eadungn/taohe.git", rev), 2);
    assert_eq!(store.version_downloads(1, rev), 4);
    assert_eq!(store.fetches, 0);
}

#[test]
fn increase_download_count_for_nonexistent_package() {
    let url = "https://github.com/eadungn/taohe";
    let rev = "30d4792b29330cf701af04b493a38a82102ed4fd";
    let mut store = Store::new();
    assert_eq!(store.packages.len(), 0);
    assert_eq!(store.versions.len(), 0);
    assert_eq!(store.count(url, rev), 2);
    assert_eq!(store.fetches, 1);
    assert_eq!(store.count(url, rev), 2);
    assert_eq!(store.fetches, 1);
    assert_eq!(store.packages.len(), 1);
    assert_eq!(store.versions.len(), 1);
    assert_eq!(store.versions.iter().filter(|v| v.1 == rev).count(), 1);
    assert_eq!(store.packages[0].2, 2);
    assert_eq!(store.version_downloads(1, rev), 2);
}

#[test]
fn increase_download_count_for_multiple_versions() {
    let url = "https://github.com/eadungn/taohe";
    let rev1 = "30d4792b29330cf701af04b493a38a82102ed4fd";
    let rev2 = "fe66d6c60a3765c322edbcfa9b63650593971a28";
    let mut store = Store::new();
    store.packages.push((1, url.to_string(), 0));
    store.versions.push((1, rev1.to_string(), 0));
    store.versions.push((1, rev2.to_string(), 0));
    store.count(url, rev1);
    store.count(url, rev2);
    assert_eq!(store.version_downloads(1, rev1), 1);
    assert_eq!(store.version_downloads(1, rev2), 1);
    assert_eq!(store.packages[0].2, 2);
    store.count("git@github.com:eadungn/taohe.git", rev2);
    assert_eq!(store.version_downloads(1, rev2), 2);
    assert_eq!(store.version_downloads(1, rev1), 1);
    assert_eq!(store.packages[0].2, 3);
}
