use movey::collaborators::{
    is_email_like, AccountLookup, AddAction, AddCollaborator, AddEvent, ApiMessage, ApiReply, Role,
};
use movey::ownership::{TransferAction, TransferEvent, TransferOwnership};
use movey::removal::{RemoveAction, RemoveCollaborator, RemoveEvent};

type E = String;

fn add_until_account(user: &str) -> AddCollaborator {
    let (s, a) = AddCollaborator::new::<E>(user);
    assert!(matches!(a, AddAction::CheckAuthentication));
    let (s, a) = s.step::<E>(AddEvent::Authenticated(Ok(true)));
    assert!(matches!(a, AddAction::FindPackage));
    let (s, a) = s.step::<E>(AddEvent::PackageLookup(Ok(7)));
    assert!(matches!(a, AddAction::GetUser));
    let (s, a) = s.step::<E>(AddEvent::User(1));
    assert!(matches!(a, AddAction::CheckMembership { package_id: 7, account_id: 1 }));
    let (s, a) = s.step::<E>(AddEvent::Membership(Ok(())));
    assert!(matches!(a, AddAction::FindAccount { user: ref u } if u == user));
    s
}

#[test]
fn roles_are_stored_as_numbers() {
    assert_eq!(Role::Owner.code(), 0);
    assert_eq!(Role::Collaborator.code(), 1);
    assert!(is_email_like("a@b.c"));
    assert!(!is_email_like("octocat"));
}

#[test]
fn an_unauthenticated_request_clears_the_cookie() {
    let (s, _) = AddCollaborator::new::<E>("a@b.c");
    let (s, a) = s.step::<E>(AddEvent::Authenticated(Ok(false)));
    assert!(matches!(a, AddAction::Reply(ApiReply::ClearCookie)));
    let (_, a) = s.step::<E>(AddEvent::PackageLookup(Ok(1)));
    assert!(matches!(a, AddAction::Stay));
}

#[test]
fn inviting_an_account_creates_an_invitation_and_emails_it() {
    let s = add_until_account("friend@example.com");
    let (s, a) = s.step::<E>(AddEvent::Account(AccountLookup::Found { id: 2, generated_email: false }));
    assert!(matches!(a, AddAction::CheckInviteeMembership { package_id: 7, account_id: 2 }));
    let (s, a) = s.step::<E>(AddEvent::InviteeMembership(false));
    assert!(matches!(
        a,
        AddAction::CreateOwnerInvitation { invitee: 2, invited_by: 1, package_id: 7, transferring: false }
    ));
    let (s, a) = s.step::<E>(AddEvent::Invitation(Ok(())));
    assert!(matches!(a, AddAction::QueueInvitationEmail));
    let (_, a) = s.step::<E>(AddEvent::Queued(Ok(())));
    assert!(matches!(
        a,
        AddAction::Reply(ApiReply::Json { ok: true, msg: ApiMessage::SuccessfullyInvitedCollaborator })
    ));
}

#[test]
fn inviting_an_account_with_a_generated_email_sends_no_email() {
    let s = add_until_account("octocat");
    let (s, _) = s.step::<E>(AddEvent::Account(AccountLookup::Found { id: 2, generated_email: true }));
    let (s, _) = s.step::<E>(AddEvent::InviteeMembership(false));
    let (_, a) = s.step::<E>(AddEvent::Invitation(Ok(())));
    assert!(matches!(
        a,
        AddAction::Reply(ApiReply::Json { ok: true, msg: ApiMessage::SuccessfullyInvitedCollaborator })
    ));
}

#[test]
fn inviting_an_unknown_address_records_an_external_invitation() {
    let s = add_until_account("new@example.com");
    let (s, a) = s.step::<E>(AddEvent::Account(AccountLookup::Missing("not found".to_string())));
    assert!(matches!(
        a,
        AddAction::CreateExternalInvitation { ref email, package_id: 7, invited_by: 1 } if email == "new@example.com"
    ));
    let (s, a) = s.step::<E>(AddEvent::ExternalInvitation(Ok(())));
    assert!(matches!(a, AddAction::QueueRegisterEmail { ref to } if to == "new@example.com"));
    let (_, a) = s.step::<E>(AddEvent::Queued(Err("queue down".to_string())));
    assert!(matches!(
        a,
        AddAction::Reply(ApiReply::Json { ok: false, msg: ApiMessage::AccountNotFoundInviting })
    ));
}

#[test]
fn inviting_an_unknown_login_is_refused() {
    let s = add_until_account("octocat");
    let (_, a) = s.step::<E>(AddEvent::Account(AccountLookup::Missing("not found".to_string())));
    assert!(matches!(
        a,
        AddAction::Reply(ApiReply::NotFound(ApiMessage::AccountNotFoundDontInvite, Some(_)))
    ));
}

#[test]
fn inviting_a_collaborator_again_is_refused() {
    let s = add_until_account("friend@example.com");
    let (s, _) = s.step::<E>(AddEvent::Account(AccountLookup::Found { id: 2, generated_email: false }));
    let (_, a) = s.step::<E>(AddEvent::InviteeMembership(true));
    assert!(matches!(
        a,
        AddAction::Reply(ApiReply::BadRequest(ApiMessage::CollaboratorAlreadyExisted, None))
    ));
}

#[test]
fn only_collaborators_may_invite() {
    let (s, _) = AddCollaborator::new::<E>("friend@example.com");
    let (s, _) = s.step::<E>(AddEvent::Authenticated(Ok(true)));
    let (s, _) = s.step::<E>(AddEvent::PackageLookup(Ok(7)));
    let (s, _) = s.step::<E>(AddEvent::User(1));
    let (s, a) = s.step::<E>(AddEvent::Membership(Err("no row".to_string())));
    assert!(matches!(
        a,
        AddAction::Reply(ApiReply::Forbidden(ApiMessage::UnauthorizedToAddCollaborator, Some(_)))
    ));
    assert!(!s.requester_is_member);
}

fn transfer_until_roles() -> TransferOwnership {
    let (s, _) = TransferOwnership::new::<E>();
    let (s, _) = s.step::<E>(TransferEvent::Authenticated(Ok(true)));
    let (s, _) = s.step::<E>(TransferEvent::PackageLookup(Ok(7)));
    let (s, a) = s.step::<E>(TransferEvent::Account(AccountLookup::Found { id: 2, generated_email: false }));
    assert!(matches!(a, TransferAction::GetUser));
    let (s, a) = s.step::<E>(TransferEvent::User(1));
    assert!(matches!(a, TransferAction::LoadRoles { package_id: 7, requester: 1, new_owner: 2 }));
    s
}

#[test]
fn the_owner_offers_the_package_to_a_collaborator() {
    let s = transfer_until_roles();
    let (s, a) = s.step::<E>(TransferEvent::Roles(Ok(vec![0, 1])));
    assert!(matches!(a, TransferAction::CreateTransferInvitation { invitee: 2, invited_by: 1, package_id: 7 }));
    let (s, a) = s.step::<E>(TransferEvent::Invitation(Ok(())));
    assert!(matches!(a, TransferAction::QueueInvitationEmail));
    let (_, a) = s.step::<E>(TransferEvent::Queued(Ok(())));
    assert!(matches!(
        a,
        TransferAction::Reply(ApiReply::Json { ok: true, msg: ApiMessage::SuccessfullyTransferOwnership })
    ));
}

#[test]
fn a_transfer_needs_exactly_an_owner_and_a_collaborator() {
    let (_, a) = transfer_until_roles().step::<E>(TransferEvent::Roles(Ok(vec![0])));
    assert!(matches!(
        a,
        TransferAction::Reply(ApiReply::BadRequest(ApiMessage::UnauthorizedToTransferOwnership, None))
    ));
    let (_, a) = transfer_until_roles().step::<E>(TransferEvent::Roles(Ok(vec![1, 1])));
    assert!(matches!(
        a,
        TransferAction::Reply(ApiReply::Forbidden(ApiMessage::UnauthorizedToTransferOwnership, None))
    ));
    let (_, a) = transfer_until_roles().step::<E>(TransferEvent::Roles(Err("db".to_string())));
    assert!(matches!(
        a,
        TransferAction::Reply(ApiReply::Forbidden(ApiMessage::UnauthorizedToAddCollaborator, Some(_)))
    ));
}

#[test]
fn a_transfer_to_an_unknown_account_is_refused() {
    let (s, _) = TransferOwnership::new::<E>();
    let (s, _) = s.step::<E>(TransferEvent::Authenticated(Ok(true)));
    let (s, _) = s.step::<E>(TransferEvent::PackageLookup(Ok(7)));
    let (_, a) = s.step::<E>(TransferEvent::Account(AccountLookup::Missing("none".to_string())));
    assert!(matches!(a, TransferAction::Reply(ApiReply::NotFound(ApiMessage::AccountNotFound, Some(_)))));
}

fn remove_until_account(user: &str) -> RemoveCollaborator {
    let (s, _) = RemoveCollaborator::new::<E>(user);
    let (s, _) = s.step::<E>(RemoveEvent::Authenticated(Ok(true)));
    let (s, _) = s.step::<E>(RemoveEvent::PackageLookup(Ok(7)));
    let (s, _) = s.step::<E>(RemoveEvent::User(1));
    let (s, a) = s.step::<E>(RemoveEvent::Membership(Ok(())));
    assert!(matches!(a, RemoveAction::FindAccount { user: ref u } if u == user));
    s
}

#[test]
fn removing_a_pending_owner_withdraws_the_invitation_only() {
    let s = remove_until_account("friend@example.com");
    let (s, a) = s.step::<E>(RemoveEvent::Account(AccountLookup::Found { id: 2, generated_email: false }));
    assert!(matches!(a, RemoveAction::DeleteOwnerInvitation { account_id: 2, package_id: 7 }));
    let (_, a) = s.step::<E>(RemoveEvent::Deleted(Ok(1)));
    assert!(matches!(
        a,
        RemoveAction::Reply(ApiReply::Json { ok: true, msg: ApiMessage::SuccessfullyRemovedCollaborator })
    ));
}

#[test]
fn removing_a_collaborator_deletes_their_row() {
    let s = remove_until_account("friend@example.com");
    let (s, _) = s.step::<E>(RemoveEvent::Account(AccountLookup::Found { id: 2, generated_email: false }));
    let (s, a) = s.step::<E>(RemoveEvent::Deleted(Ok(0)));
    assert!(matches!(a, RemoveAction::DeleteCollaborator { account_id: 2, package_id: 7 }));
    let (_, a) = s.step::<E>(RemoveEvent::Deleted(Ok(0)));
    assert!(matches!(a, RemoveAction::Reply(ApiReply::NotFound(ApiMessage::CollaboratorNotFound, None))));
}

#[test]
fn removing_an_unknown_address_drops_its_external_invitation() {
    let s = remove_until_account("new@example.com");
    let (s, a) = s.step::<E>(RemoveEvent::Account(AccountLookup::Missing("none".to_string())));
    assert!(matches!(
        a,
        RemoveAction::DeleteExternalInvitation { ref email, package_id: 7 } if email == "new@example.com"
    ));
    let (_, a) = s.step::<E>(RemoveEvent::Deleted(Ok(0)));
    assert!(matches!(
        a,
        RemoveAction::Reply(ApiReply::Json { ok: true, msg: ApiMessage::SuccessfullyRemovedCollaborator })
    ));
    let s = remove_until_account("octocat");
    let (_, a) = s.step::<E>(RemoveEvent::Account(AccountLookup::Failed("db".to_string())));
    assert!(matches!(a, RemoveAction::Reply(ApiReply::NotFound(ApiMessage::AccountNotFound, Some(_)))));
}
