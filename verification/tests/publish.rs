use movey::naming::suffix_of;
use movey::publish::{PackageRecord, PublishAction, PublishError, PublishEvent, PublishFlow, VersionLookup};
use movey::repo::GithubRepoData;

type E = String;

fn record(id: i32, slug: &str) -> PackageRecord {
    PackageRecord { id, slug: Some(slug.to_string()) }
}

fn data(name: &str) -> GithubRepoData {
    GithubRepoData {
        name: name.to_string(),
        version: "1.5.0".to_string(),
        readme_content: "readme".to_string(),
        license: "MIT".to_string(),
        description: "ignored".to_string(),
        size: 0,
        stars_count: 0,
        forks_count: 0,
        url: "main".to_string(),
        rev: "".to_string(),
    }
}

fn start(name: &str, account: Option<i32>, max: usize) -> (PublishFlow, PublishAction<E>) {
    PublishFlow::new::<E>("https://github.com/o/r", "A package", "abc", 12, 34, account, &data(name), max)
}

#[test]
fn create_package_works() {
    let (s, a) = start("MoveStdlib", Some(1), 3);
    match a {
        PublishAction::LookupPackage { name, repository_url } => {
            assert_eq!(name, "MoveStdlib");
            assert_eq!(repository_url, "https://github.com/o/r");
        }
        _ => panic!("expected a lookup"),
    }
    let (s, a) = s.step::<E>(PublishEvent::PackageLookup(None));
    match a {
        PublishAction::InsertPackage { name, description, repository_url, slug } => {
            assert_eq!(name, "MoveStdlib");
            assert_eq!(description, "A package");
            assert_eq!(repository_url, "https://github.com/o/r");
            assert_eq!(slug, "move-stdlib");
        }
        _ => panic!("expected an insertion"),
    }
    let (s, a) = s.step::<E>(PublishEvent::Inserted(Some(record(5, "move-stdlib"))));
    assert!(matches!(a, PublishAction::AddOwner { package_id: 5, account_id: 1, created_by: 1 }));
    let (s, a) = s.step::<E>(PublishEvent::OwnerAdded);
    assert!(matches!(a, PublishAction::LookupVersion { package_id: 5, ref version } if version == "1.5.0"));
    let (s, a) = s.step::<E>(PublishEvent::VersionLookup(VersionLookup::NotFound));
    match a {
        PublishAction::CreateVersion { package_id, version, readme_content, rev, total_files, total_size, downloads_count } => {
            assert_eq!(package_id, 5);
            assert_eq!(version, "1.5.0");
            assert_eq!(readme_content, "readme");
            assert_eq!(rev, "abc");
            assert_eq!(total_files, 12);
            assert_eq!(total_size, 34);
            assert_eq!(downloads_count, 0);
        }
        _ => panic!("expected a version"),
    }
    let (_, a) = s.step::<E>(PublishEvent::VersionCreated);
    match a {
        PublishAction::Done(p) => {
            assert_eq!(p.id, 5);
            assert_eq!(p.slug, Some("move-stdlib".to_string()));
        }
        _ => panic!("expected the package"),
    }
}

#[test]
fn a_colliding_slug_grows_a_suffix_until_the_limit() {
    let first = suffix_of(0);
    let second = suffix_of(62 * 62 * 62 * 61 + 62 * 62 * 10 + 62 * 30 + 5);
    assert_eq!(first, "AAAA");
    assert_eq!(second, "FeK9");
    let (s, _) = start("MoveStdlib", None, 2);
    let (s, _) = s.step::<E>(PublishEvent::PackageLookup(None));
    let (s, a) = s.step::<E>(PublishEvent::Inserted(None));
    assert!(matches!(a, PublishAction::DrawSuffix));
    let (s, a) = s.step::<E>(PublishEvent::Suffix(0));
    assert!(matches!(a, PublishAction::InsertPackage { ref slug, .. } if slug == "move-stdlib-AAAA"));
    let (s, _) = s.step::<E>(PublishEvent::Inserted(None));
    let (s, a) = s.step::<E>(PublishEvent::Suffix(62 * 62 * 62 * 61 + 62 * 62 * 10 + 62 * 30 + 5));
    assert!(matches!(a, PublishAction::InsertPackage { ref slug, .. } if slug == "move-stdlib-AAAA-FeK9"));
    let (_, a) = s.step::<E>(PublishEvent::Inserted(None));
    assert!(matches!(a, PublishAction::Fail(PublishError::SlugsExhausted)));
}

#[test]
fn suffixes_are_four_letters_or_digits() {
    for n in [0u64, 1, 61, 62, 12345, 987654321, u64::MAX] {
        let s = suffix_of(n);
        assert_eq!(s.len(), 4);
        assert!(s.chars().all(|c| c.is_ascii_alphanumeric()), "{}", s);
    }
}

#[test]
fn the_crawler_publishes_without_an_owner() {
    let (s, _) = start("P", None, 3);
    let (s, _) = s.step::<E>(PublishEvent::PackageLookup(None));
    let (_, a) = s.step::<E>(PublishEvent::Inserted(Some(record(8, "p"))));
    assert!(matches!(a, PublishAction::LookupVersion { package_id: 8, .. }));
}

#[test]
fn only_the_owner_adds_a_version() {
    let (s, _) = start("P", Some(2), 3);
    let (s, a) = s.step::<E>(PublishEvent::PackageLookup(Some(record(8, "p"))));
    assert!(matches!(a, PublishAction::ListCollaborators { package_id: 8 }));
    let (_, a) = s.step::<E>(PublishEvent::Collaborators(vec![1, 2]));
    match a {
        PublishAction::Fail(PublishError::NotOwner(slug)) => assert_eq!(slug, Some("p".to_string())),
        _ => panic!("expected a refusal"),
    }
    let (s, _) = start("P", Some(1), 3);
    let (s, _) = s.step::<E>(PublishEvent::PackageLookup(Some(record(8, "p"))));
    let (_, a) = s.step::<E>(PublishEvent::Collaborators(vec![1, 2]));
    assert!(matches!(a, PublishAction::LookupVersion { package_id: 8, .. }));
}

#[test]
fn an_existing_version_is_refused() {
    let (s, _) = start("P", None, 3);
    let (s, _) = s.step::<E>(PublishEvent::PackageLookup(Some(record(8, "p"))));
    let (s, _) = s.step::<E>(PublishEvent::Collaborators(vec![]));
    let (_, a) = s.step::<E>(PublishEvent::VersionLookup(VersionLookup::Found));
    match a {
        PublishAction::Fail(PublishError::VersionExists(slug)) => assert_eq!(slug, Some("p".to_string())),
        _ => panic!("expected a refusal"),
    }
}
