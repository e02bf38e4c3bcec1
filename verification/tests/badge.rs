use movey::badge::{text_after, PackageBadgeRespond};

fn record(name: &str, total: i32, version: &str, count: i32) -> (String, i32, String, i32) {
    (name.to_string(), total, version.to_string(), count)
}

#[test]
fn get_badge_info() {
    let records = vec![
        record("The first package", 1500, "0.0.1", 500),
        record("The first package", 1500, "0.0.2", 1000),
    ];
    let badge = PackageBadgeRespond::from(records);
    assert_eq!(badge.package_name, "The first package");
    assert_eq!(badge.total_download_counts, 1500);
    assert_eq!(badge.latest_version, "0.0.2");
    assert_eq!(badge.versions.len(), 2);
    assert_eq!(badge.versions[0].version, "0.0.1");
    assert_eq!(badge.versions[0].download_counts, 500);
    assert_eq!(badge.versions[1].version, "0.0.2");
    assert_eq!(badge.versions[1].download_counts, 1000);
}

#[test]
fn the_latest_version_is_the_greatest_text() {
    let records = vec![record("p", 1, "0.0.9", 1), record("p", 1, "0.0.10", 1), record("p", 1, "0.0.3", 1)];
    let badge = PackageBadgeRespond::from(records);
    assert_eq!(badge.latest_version, "0.0.9");
}

#[test]
fn text_order_matches_str_order() {
    let pairs = [("a", "b"), ("ab", "a"), ("", "a"), ("é", "z"), ("1.10", "1.9"), ("same", "same")];
    for (b, a) in pairs {
        assert_eq!(text_after(b, a), b > a, "{} after {}", b, a);
    }
}

#[test]
fn a_package_without_versions_has_no_badge() {
    assert!(movey::badge::badge_reply(vec![]).is_none());
    let badge = movey::badge::badge_reply(vec![record("p", 3, "1.0.0", 3)]).unwrap();
    assert_eq!(badge.latest_version, "1.0.0");
    assert_eq!(badge.total_download_counts, 3);
}
