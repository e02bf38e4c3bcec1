use movey::package_settings::{
    contains_id, ids_to_show, settings_list, sort_by_status, AccountEntry, SerializableInvitation, Status,
};

fn account(id: i32, email: &str, login: Option<&str>, generated: bool) -> AccountEntry {
    AccountEntry {
        id,
        email: email.to_string(),
        github_login: login.map(|l| l.to_string()),
        has_generated_email: generated,
    }
}

fn line(status: Status, email: &str) -> SerializableInvitation {
    SerializableInvitation { status, email: email.to_string() }
}

fn lines(list: &[SerializableInvitation]) -> Vec<(Status, String)> {
    list.iter().map(|l| (l.status, l.email.clone())).collect()
}

#[test]
fn a_collaborator_sees_every_invitation_sorted_by_status() {
    let accounts = vec![
        account(4, "invited@x.io", None, false),
        account(3, "pending-owner@x.io", None, false),
        account(2, "gen@noreply.movey.net", Some("octocat"), true),
        account(1, "owner@x.io", None, false),
    ];
    let accepted = vec![1, 2, 3];
    let pending = vec![3, 4];
    let externals = vec!["outside@x.io".to_string()];
    let (list, is_owner) = settings_list(&accounts, &accepted, &pending, &externals, 2);
    assert!(!is_owner);
    assert_eq!(
        lines(&list),
        vec![
            (Status::Owner, "owner@x.io".to_string()),
            (Status::Collaborator, "octocat".to_string()),
            (Status::PendingCollaborator, "invited@x.io".to_string()),
            (Status::PendingOwner, "pending-owner@x.io".to_string()),
            (Status::External, "outside@x.io".to_string()),
        ]
    );
}

#[test]
fn the_owner_is_told_they_own_the_package() {
    let accounts = vec![account(1, "owner@x.io", None, false)];
    let (list, is_owner) = settings_list(&accounts, &vec![1], &vec![], &vec![], 1);
    assert!(is_owner);
    assert_eq!(lines(&list), vec![(Status::Owner, "owner@x.io".to_string())]);
}

#[test]
fn others_see_owner_and_collaborators_only() {
    let accounts = vec![
        account(2, "gen@noreply.movey.net", Some("octocat"), true),
        account(1, "owner@x.io", None, false),
    ];
    let externals = vec!["outside@x.io".to_string()];
    let (list, is_owner) = settings_list(&accounts, &vec![1, 2], &vec![2], &externals, 99);
    assert!(!is_owner);
    assert_eq!(
        lines(&list),
        vec![
            (Status::Owner, "owner@x.io".to_string()),
            (Status::Collaborator, "gen@noreply.movey.net".to_string()),
        ]
    );
}

#[test]
fn a_generated_email_without_login_is_shown_as_it_is() {
    let accounts = vec![account(1, "gen@noreply.movey.net", None, true)];
    let (list, _) = settings_list(&accounts, &vec![1], &vec![], &vec![], 1);
    assert_eq!(lines(&list), vec![(Status::Owner, "gen@noreply.movey.net".to_string())]);
}

#[test]
fn sorting_keeps_the_order_within_a_status() {
    let entries = vec![
        line(Status::External, "e1"),
        line(Status::Collaborator, "c1"),
        line(Status::Owner, "o"),
        line(Status::Collaborator, "c2"),
        line(Status::External, "e2"),
    ];
    let sorted = sort_by_status(&entries);
    assert_eq!(
        lines(&sorted),
        vec![
            (Status::Owner, "o".to_string()),
            (Status::Collaborator, "c1".to_string()),
            (Status::Collaborator, "c2".to_string()),
            (Status::External, "e1".to_string()),
            (Status::External, "e2".to_string()),
        ]
    );
    assert!(Status::Owner < Status::Collaborator && Status::PendingCollaborator < Status::PendingOwner);
    assert!(Status::PendingOwner < Status::External);
}

#[test]
fn lines_are_equal_when_they_show_the_same_address() {
    assert!(line(Status::Owner, "a@x.io") == line(Status::External, "a@x.io"));
    assert!(line(Status::Owner, "a@x.io") != line(Status::Owner, "b@x.io"));
}

#[test]
fn the_accounts_to_load_are_listed_once() {
    let ids = ids_to_show(&vec![1, 2, 3], &vec![3, 4, 4], true);
    assert_eq!(ids, vec![1, 2, 3, 4]);
    let outsiders = ids_to_show(&vec![1, 2], &vec![3], false);
    assert_eq!(outsiders, vec![1, 2]);
    assert!(contains_id(&vec![5, 6], 6));
    assert!(!contains_id(&vec![], 6));
}
