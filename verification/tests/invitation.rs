use movey::collaborators::{ApiMessage, ApiReply, Role};
use movey::invitation::{
    acceptance_plan, expires_at, is_expired, is_expiry_defined, link_after_accepting, link_before_accepting,
    replaces_existing, AcceptStep, AnswerAction, AnswerEvent, AnswerInvitation, InvitationRecord,
    InvitationResponse, LinkAnswer, OwnerInvitationQuery, Timestamp,
};

type E = String;

const NOW: Timestamp = Timestamp { secs: 1_700_000_000, nanos: 500 };

fn record(created: Timestamp, transferring: bool) -> InvitationRecord {
    InvitationRecord { invited_user_id: 2, package_id: 7, is_transferring: transferring, created_at: created }
}

fn until_lookup(accepted: bool, days: i64) -> AnswerInvitation {
    let (s, a) = AnswerInvitation::new::<E>(InvitationResponse { package_id: 7, accepted }, NOW, days);
    assert!(matches!(a, AnswerAction::CheckAuthentication));
    let (s, _) = s.step::<E>(AnswerEvent::Authenticated(Ok(true)));
    let (s, a) = s.step::<E>(AnswerEvent::User(2));
    assert!(matches!(a, AnswerAction::FindInvitation { invited_user_id: 2, package_id: 7 }));
    s
}

#[test]
fn is_expired_works() {
    let created = NOW;
    assert!(!is_expired(created, 1, NOW));
    assert!(is_expired(created, 0, NOW));
    let later = Timestamp { secs: NOW.secs + 86_400, nanos: 500 };
    assert!(is_expired(created, 1, later));
    let just_before = Timestamp { secs: NOW.secs + 86_400, nanos: 499 };
    assert!(!is_expired(created, 1, just_before));
    assert_eq!(expires_at(created, 2), Timestamp { secs: NOW.secs + 172_800, nanos: 500 });
}

#[test]
fn expiry_is_defined_only_for_representable_days() {
    assert!(is_expiry_defined(NOW, 30));
    assert!(!is_expiry_defined(NOW, -1));
    assert!(!is_expiry_defined(NOW, i64::MAX));
}

#[test]
fn create_new_invitation_if_existing_one_is_expired() {
    let old = Timestamp { secs: NOW.secs - 3 * 86_400, nanos: 0 };
    assert!(replaces_existing(Some(old), 2, NOW));
}

#[test]
fn not_create_new_invitation_if_it_already_exists() {
    let recent = Timestamp { secs: NOW.secs - 86_400, nanos: 0 };
    assert!(!replaces_existing(Some(recent), 2, NOW));
    assert!(!replaces_existing(None, 2, NOW));
}

#[test]
fn an_expired_invitation_is_refused() {
    let s = until_lookup(true, 1);
    let old = Timestamp { secs: NOW.secs - 2 * 86_400, nanos: 0 };
    let (s, a) = s.step::<E>(AnswerEvent::Invitation(Ok(record(old, false))));
    assert!(matches!(a, AnswerAction::Reply(ApiReply::BadRequest(ApiMessage::InvitationExpired, None))));
    let (_, a) = s.step::<E>(AnswerEvent::Accepted(Ok(())));
    assert!(matches!(a, AnswerAction::Stay));
}

#[test]
fn accepting_a_transfer_changes_the_owner() {
    let s = until_lookup(true, 7);
    let (s, a) = s.step::<E>(AnswerEvent::Invitation(Ok(record(NOW, true))));
    assert!(matches!(a, AnswerAction::Accept));
    let (s, a) = s.step::<E>(AnswerEvent::Accepted(Ok(())));
    assert!(matches!(a, AnswerAction::ChangeOwner { package_id: 7, new_owner: 2 }));
    let (_, a) = s.step::<E>(AnswerEvent::OwnerChanged(Ok(())));
    assert!(matches!(
        a,
        AnswerAction::Reply(ApiReply::Json { ok: true, msg: ApiMessage::SuccessfullyAddedCollaborator })
    ));
}

#[test]
fn accepting_an_invitation_to_collaborate_keeps_the_owner() {
    let s = until_lookup(true, 7);
    let (s, _) = s.step::<E>(AnswerEvent::Invitation(Ok(record(NOW, false))));
    let (_, a) = s.step::<E>(AnswerEvent::Accepted(Ok(())));
    assert!(matches!(
        a,
        AnswerAction::Reply(ApiReply::Json { ok: true, msg: ApiMessage::SuccessfullyAddedCollaborator })
    ));
}

#[test]
fn declining_deletes_the_invitation() {
    let s = until_lookup(false, 7);
    let (s, a) = s.step::<E>(AnswerEvent::Invitation(Ok(record(NOW, true))));
    assert!(matches!(a, AnswerAction::Delete));
    let (_, a) = s.step::<E>(AnswerEvent::Deleted(Err("db".to_string())));
    assert!(matches!(a, AnswerAction::Reply(ApiReply::Unauthorized(ApiMessage::UnexpectedError, Some(_)))));
}

#[test]
fn a_missing_invitation_is_not_found() {
    let s = until_lookup(true, 7);
    let (_, a) = s.step::<E>(AnswerEvent::Invitation(Err("none".to_string())));
    assert!(matches!(a, AnswerAction::Reply(ApiReply::NotFound(ApiMessage::InvitationNotFound, Some(_)))));
}

#[test]
fn listed_invitations_compare_by_users_package_and_kind() {
    let a = OwnerInvitationQuery {
        invited_user_id: 2,
        invited_by_user_id: 1,
        invited_by_user_email: "a@b.c".to_string(),
        package_id: 7,
        package_name: "p".to_string(),
        is_transferring: false,
    };
    let b = OwnerInvitationQuery {
        invited_by_user_email: "other@b.c".to_string(),
        package_name: "q".to_string(),
        ..OwnerInvitationQuery {
            invited_user_id: 2,
            invited_by_user_id: 1,
            invited_by_user_email: String::new(),
            package_id: 7,
            package_name: String::new(),
            is_transferring: false,
        }
    };
    assert!(a == b);
    let c = OwnerInvitationQuery { is_transferring: true, ..b };
    assert!(a != c);
}

#[test]
fn accepting_a_transfer_swaps_the_roles() {
    assert_eq!(
        acceptance_plan(2, 1, 7, true),
        vec![
            AcceptStep::SetRole { account_id: 1, role: Role::Collaborator },
            AcceptStep::SetRole { account_id: 2, role: Role::Owner },
            AcceptStep::DeleteInvitation,
        ]
    );
    assert_eq!(
        acceptance_plan(2, 1, 7, false),
        vec![AcceptStep::AddCollaborator { package_id: 7, account_id: 2, created_by: 1 }, AcceptStep::DeleteInvitation]
    );
}

#[test]
fn an_invitation_link_is_refused_once_expired() {
    let old = Timestamp { secs: NOW.secs - 8 * 86_400, nanos: 0 };
    assert!(matches!(link_before_accepting(old, 7, NOW), Some(LinkAnswer::Gone)));
    assert!(link_before_accepting(NOW, 7, NOW).is_none());
    assert!(matches!(link_after_accepting(false, "p"), LinkAnswer::Unavailable));
    match link_after_accepting(true, "move-stdlib") {
        LinkAnswer::Redirect(path) => assert_eq!(path, "/packages/move-stdlib"),
        _ => panic!("expected a redirect"),
    }
}
