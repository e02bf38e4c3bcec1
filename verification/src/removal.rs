//! A request by a collaborator of a package to remove someone from it: a
//! pending invitation is withdrawn first; otherwise the collaborator is
//! removed; an address without an account loses its external invitation.

use vstd::prelude::*;
use crate::collaborators::{AccountLookup, ApiMessage, ApiReply, names_email, is_email_like};

verus! {

#[derive(Clone, Copy, Debug, PartialEq, Eq, Structural)]
pub enum RemovePhase {
    AwaitAuthentication,
    AwaitPackage,
    AwaitUser,
    AwaitMembership,
    AwaitAccount,
    AwaitInvitationDeletion,
    AwaitCollaboratorDeletion,
    AwaitExternalDeletion,
    Finished,
}

/// The state of a request to remove a collaborator.
pub struct RemoveCollaborator {
    pub phase: RemovePhase,
    /// The removed user: an email address or a GitHub login.
    pub user: String,
    /// Whether the removed user was named by an email address.
    pub user_is_email: bool,
    pub package_id: i32,
    pub requester_id: i32,
    pub target_id: i32,
    /// The requester was found to be a collaborator of the package.
    pub requester_is_member: bool,
}

pub struct RemoveModel {
    pub phase: RemovePhase,
    pub user: Seq<char>,
    pub user_is_email: bool,
    pub package_id: i32,
    pub requester_id: i32,
    pub target_id: i32,
    pub requester_is_member: bool,
}

impl View for RemoveCollaborator {
    type V = RemoveModel;

    open spec fn view(&self) -> RemoveModel {
        RemoveModel {
            phase: self.phase,
            user: self.user@,
            user_is_email: self.user_is_email,
            package_id: self.package_id,
            requester_id: self.requester_id,
            target_id: self.target_id,
            requester_is_member: self.requester_is_member,
        }
    }
}

pub enum RemoveEvent<E> {
    Authenticated(Result<bool, E>),
    PackageLookup(Result<i32, E>),
    User(i32),
    Membership(Result<(), E>),
    Account(AccountLookup<E>),
    /// How many rows a deletion removed.
    Deleted(Result<u64, E>),
    ServerFailure(E),
}

pub enum RemoveAction<E> {
    CheckAuthentication,
    FindPackage,
    GetUser,
    CheckMembership { package_id: i32, account_id: i32 },
    /// Look the account up by email address or GitHub login.
    FindAccount { user: String },
    DeleteOwnerInvitation { account_id: i32, package_id: i32 },
    /// Delete the account's collaborator (not owner) row.
    DeleteCollaborator { account_id: i32, package_id: i32 },
    /// Delete the external invitation of the address `email` to the package.
    DeleteExternalInvitation { email: String, package_id: i32 },
    Reply(ApiReply<E>),
    Stay,
}

pub enum RemoveActionView<E> {
    CheckAuthentication,
    FindPackage,
    GetUser,
    CheckMembership { package_id: i32, account_id: i32 },
    FindAccount { user: Seq<char> },
    DeleteOwnerInvitation { account_id: i32, package_id: i32 },
    DeleteCollaborator { account_id: i32, package_id: i32 },
    DeleteExternalInvitation { email: Seq<char>, package_id: i32 },
    Reply(ApiReply<E>),
    Stay,
}

impl<E> View for RemoveAction<E> {
    type V = RemoveActionView<E>;

    open spec fn view(&self) -> RemoveActionView<E> {
        match self {
            RemoveAction::CheckAuthentication => RemoveActionView::CheckAuthentication,
            RemoveAction::FindPackage => RemoveActionView::FindPackage,
            RemoveAction::GetUser => RemoveActionView::GetUser,
            RemoveAction::CheckMembership { package_id, account_id } => RemoveActionView::CheckMembership {
                package_id: *package_id,
                account_id: *account_id,
            },
            RemoveAction::FindAccount { user } => RemoveActionView::FindAccount { user: user@ },
            RemoveAction::DeleteOwnerInvitation { account_id, package_id } =>
                RemoveActionView::DeleteOwnerInvitation { account_id: *account_id, package_id: *package_id },
            RemoveAction::DeleteCollaborator { account_id, package_id } =>
                RemoveActionView::DeleteCollaborator { account_id: *account_id, package_id: *package_id },
            RemoveAction::DeleteExternalInvitation { email, package_id } =>
                RemoveActionView::DeleteExternalInvitation { email: email@, package_id: *package_id },
            RemoveAction::Reply(r) => RemoveActionView::Reply(*r),
            RemoveAction::Stay => RemoveActionView::Stay,
        }
    }
}

/// Where a removal goes when no account has the name: an email address
/// loses its external invitation; any other name is not found.
pub open spec fn missing_next<E>(s: RemoveModel, x: E) -> (RemoveModel, RemoveActionView<E>) {
    if s.user_is_email {
        (
            RemoveModel { phase: RemovePhase::AwaitExternalDeletion, ..s },
            RemoveActionView::DeleteExternalInvitation { email: s.user, package_id: s.package_id },
        )
    } else {
        (
            RemoveModel { phase: RemovePhase::Finished, ..s },
            RemoveActionView::Reply(ApiReply::NotFound(ApiMessage::AccountNotFound, Some(x))),
        )
    }
}

pub open spec fn remove_next<E>(s: RemoveModel, e: RemoveEvent<E>) -> (RemoveModel, RemoveActionView<E>) {
    let done = RemoveModel { phase: RemovePhase::Finished, ..s };
    let success = RemoveActionView::Reply(
        ApiReply::Json { ok: true, msg: ApiMessage::SuccessfullyRemovedCollaborator },
    );
    match (s.phase, e) {
        (RemovePhase::Finished, _) => (s, RemoveActionView::Stay),
        (_, RemoveEvent::ServerFailure(x)) => (done, RemoveActionView::Reply(ApiReply::ServerError(x))),
        (RemovePhase::AwaitAuthentication, RemoveEvent::Authenticated(r)) => match r {
            Err(x) => (done, RemoveActionView::Reply(ApiReply::Propagate(x))),
            Ok(false) => (done, RemoveActionView::Reply(ApiReply::ClearCookie)),
            Ok(true) => (RemoveModel { phase: RemovePhase::AwaitPackage, ..s }, RemoveActionView::FindPackage),
        },
        (RemovePhase::AwaitPackage, RemoveEvent::PackageLookup(r)) => match r {
            Err(x) => (done, RemoveActionView::Reply(ApiReply::NotFound(ApiMessage::PackageNotFound, Some(x)))),
            Ok(id) => (RemoveModel { phase: RemovePhase::AwaitUser, package_id: id, ..s }, RemoveActionView::GetUser),
        },
        (RemovePhase::AwaitUser, RemoveEvent::User(uid)) => (
            RemoveModel { phase: RemovePhase::AwaitMembership, requester_id: uid, ..s },
            RemoveActionView::CheckMembership { package_id: s.package_id, account_id: uid },
        ),
        (RemovePhase::AwaitMembership, RemoveEvent::Membership(r)) => match r {
            Err(x) => (
                done,
                RemoveActionView::Reply(ApiReply::Forbidden(ApiMessage::UnauthorizedToAddCollaborator, Some(x))),
            ),
            Ok(_) => (
                RemoveModel { phase: RemovePhase::AwaitAccount, requester_is_member: true, ..s },
                RemoveActionView::FindAccount { user: s.user },
            ),
        },
        (RemovePhase::AwaitAccount, RemoveEvent::Account(a)) => match a {
            AccountLookup::Found { id, generated_email: _ } => (
                RemoveModel { phase: RemovePhase::AwaitInvitationDeletion, target_id: id, ..s },
                RemoveActionView::DeleteOwnerInvitation { account_id: id, package_id: s.package_id },
            ),
            AccountLookup::Missing(x) => missing_next(s, x),
            AccountLookup::Failed(x) => missing_next(s, x),
        },
        (RemovePhase::AwaitInvitationDeletion, RemoveEvent::Deleted(r)) => match r {
            Err(x) => (done, RemoveActionView::Reply(ApiReply::ServerError(x))),
            Ok(n) => if n == 0 {
                (
                    RemoveModel { phase: RemovePhase::AwaitCollaboratorDeletion, ..s },
                    RemoveActionView::DeleteCollaborator { account_id: s.target_id, package_id: s.package_id },
                )
            } else {
                (done, success)
            },
        },
        (RemovePhase::AwaitCollaboratorDeletion, RemoveEvent::Deleted(r)) => match r {
            Err(x) => (done, RemoveActionView::Reply(ApiReply::ServerError(x))),
            Ok(n) => if n == 0 {
                (done, RemoveActionView::Reply(ApiReply::NotFound(ApiMessage::CollaboratorNotFound, None)))
            } else {
                (done, success)
            },
        },
        (RemovePhase::AwaitExternalDeletion, RemoveEvent::Deleted(r)) => match r {
            Err(x) => (done, RemoveActionView::Reply(ApiReply::NotFound(ApiMessage::AccountNotFound, Some(x)))),
            Ok(_) => (done, success),
        },
        _ => (s, RemoveActionView::Stay),
    }
}

impl RemoveCollaborator {
    /// Starts a request to remove `user` (an email address or a GitHub
    /// login) from a package.
    pub fn new<E>(user: &str) -> (r: (RemoveCollaborator, RemoveAction<E>))
        ensures
            r.0@ == (RemoveModel {
                phase: RemovePhase::AwaitAuthentication,
                user: user@,
                user_is_email: names_email(user@),
                package_id: 0,
                requester_id: 0,
                target_id: 0,
                requester_is_member: false,
            }),
            remove_checked(r.0@),
            r.1 is CheckAuthentication,
    {
        (
            RemoveCollaborator {
                phase: RemovePhase::AwaitAuthentication,
                user: String::from_str(user),
                user_is_email: is_email_like(user),
                package_id: 0,
                requester_id: 0,
                target_id: 0,
                requester_is_member: false,
            },
            RemoveAction::CheckAuthentication,
        )
    }

    /// The removal, finished.
    fn finish(self) -> (r: RemoveCollaborator)
        ensures
            r@ == (RemoveModel { phase: RemovePhase::Finished, ..self@ }),
    {
        RemoveCollaborator { phase: RemovePhase::Finished, ..self }
    }

    fn missing_account<E>(self, x: E) -> (r: (RemoveCollaborator, RemoveAction<E>))
        ensures
            r.0@ == missing_next(self@, x).0,
            r.1@ == missing_next(self@, x).1,
    {
        if self.user_is_email {
            let email = self.user.clone();
            let package_id = self.package_id;
            (
                RemoveCollaborator { phase: RemovePhase::AwaitExternalDeletion, ..self },
                RemoveAction::DeleteExternalInvitation { email, package_id },
            )
        } else {
            (self.finish(), RemoveAction::Reply(ApiReply::NotFound(ApiMessage::AccountNotFound, Some(x))))
        }
    }

    /// The next state and action after `event`.
    pub fn step<E>(self, event: RemoveEvent<E>) -> (r: (RemoveCollaborator, RemoveAction<E>))
        ensures
            r.0@ == remove_next(self@, event).0,
            r.1@ == remove_next(self@, event).1,
    {
        let phase = self.phase;
        let package_id = self.package_id;
        if phase == RemovePhase::Finished {
            return (self, RemoveAction::Stay);
        }
        match event {
            RemoveEvent::ServerFailure(x) => (self.finish(), RemoveAction::Reply(ApiReply::ServerError(x))),
            RemoveEvent::Authenticated(r) => {
                if phase != RemovePhase::AwaitAuthentication {
                    return (self, RemoveAction::Stay);
                }
                match r {
                    Err(x) => (self.finish(), RemoveAction::Reply(ApiReply::Propagate(x))),
                    Ok(false) => (self.finish(), RemoveAction::Reply(ApiReply::ClearCookie)),
                    Ok(true) => (
                        RemoveCollaborator { phase: RemovePhase::AwaitPackage, ..self },
                        RemoveAction::FindPackage,
                    ),
                }
            },
            RemoveEvent::PackageLookup(r) => {
                if phase != RemovePhase::AwaitPackage {
                    return (self, RemoveAction::Stay);
                }
                match r {
                    Err(x) => (
                        self.finish(),
                        RemoveAction::Reply(ApiReply::NotFound(ApiMessage::PackageNotFound, Some(x))),
                    ),
                    Ok(id) => (
                        RemoveCollaborator { phase: RemovePhase::AwaitUser, package_id: id, ..self },
                        RemoveAction::GetUser,
                    ),
                }
            },
            RemoveEvent::User(uid) => {
                if phase != RemovePhase::AwaitUser {
                    return (self, RemoveAction::Stay);
                }
                (
                    RemoveCollaborator { phase: RemovePhase::AwaitMembership, requester_id: uid, ..self },
                    RemoveAction::CheckMembership { package_id, account_id: uid },
                )
            },
            RemoveEvent::Membership(r) => {
                if phase != RemovePhase::AwaitMembership {
                    return (self, RemoveAction::Stay);
                }
                match r {
                    Err(x) => (
                        self.finish(),
                        RemoveAction::Reply(
                            ApiReply::Forbidden(ApiMessage::UnauthorizedToAddCollaborator, Some(x)),
                        ),
                    ),
                    Ok(_) => {
                        let user = self.user.clone();
                        (
                            RemoveCollaborator { phase: RemovePhase::AwaitAccount, requester_is_member: true, ..self },
                            RemoveAction::FindAccount { user },
                        )
                    },
                }
            },
            RemoveEvent::Account(a) => {
                if phase != RemovePhase::AwaitAccount {
                    return (self, RemoveAction::Stay);
                }
                match a {
                    AccountLookup::Found { id, generated_email: _ } => (
                        RemoveCollaborator { phase: RemovePhase::AwaitInvitationDeletion, target_id: id, ..self },
                        RemoveAction::DeleteOwnerInvitation { account_id: id, package_id },
                    ),
                    AccountLookup::Missing(x) => self.missing_account(x),
                    AccountLookup::Failed(x) => self.missing_account(x),
                }
            },
            RemoveEvent::Deleted(r) => {
                if phase == RemovePhase::AwaitInvitationDeletion {
                    match r {
                        Err(x) => (self.finish(), RemoveAction::Reply(ApiReply::ServerError(x))),
                        Ok(n) => if n == 0 {
                            let target = self.target_id;
                            (
                                RemoveCollaborator { phase: RemovePhase::AwaitCollaboratorDeletion, ..self },
                                RemoveAction::DeleteCollaborator { account_id: target, package_id },
                            )
                        } else {
                            (
                                self.finish(),
                                RemoveAction::Reply(
                                    ApiReply::Json { ok: true, msg: ApiMessage::SuccessfullyRemovedCollaborator },
                                ),
                            )
                        },
                    }
                } else if phase == RemovePhase::AwaitCollaboratorDeletion {
                    match r {
                        Err(x) => (self.finish(), RemoveAction::Reply(ApiReply::ServerError(x))),
                        Ok(n) => if n == 0 {
                            (
                                self.finish(),
                                RemoveAction::Reply(ApiReply::NotFound(ApiMessage::CollaboratorNotFound, None)),
                            )
                        } else {
                            (
                                self.finish(),
                                RemoveAction::Reply(
                                    ApiReply::Json { ok: true, msg: ApiMessage::SuccessfullyRemovedCollaborator },
                                ),
                            )
                        },
                    }
                } else if phase == RemovePhase::AwaitExternalDeletion {
                    match r {
                        Err(x) => (
                            self.finish(),
                            RemoveAction::Reply(ApiReply::NotFound(ApiMessage::AccountNotFound, Some(x))),
                        ),
                        Ok(_) => (
                            self.finish(),
                            RemoveAction::Reply(
                                ApiReply::Json { ok: true, msg: ApiMessage::SuccessfullyRemovedCollaborator },
                            ),
                        ),
                    }
                } else {
                    (self, RemoveAction::Stay)
                }
            },
        }
    }
}

/// What a removal has established by its phase: past the membership
/// check, the requester is a collaborator of the package.
pub open spec fn remove_checked(s: RemoveModel) -> bool {
    (s.phase == RemovePhase::AwaitAccount || s.phase == RemovePhase::AwaitInvitationDeletion
        || s.phase == RemovePhase::AwaitCollaboratorDeletion || s.phase == RemovePhase::AwaitExternalDeletion)
        ==> s.requester_is_member
}

/// Only a collaborator of a package removes anyone from it, and only the
/// user the request names: every step keeps what the removal has checked
/// and the named user, and nothing is deleted before the requester was
/// found a collaborator. A collaborator row is deleted only when no
/// invitation of that account was withdrawn; an external invitation only
/// for a name that is an email address, and only that address's
/// invitation to the package.
pub proof fn law_only_members_remove<E>(s: RemoveModel, e: RemoveEvent<E>)
    requires
        remove_checked(s),
    ensures
        remove_checked(remove_next(s, e).0),
        remove_next(s, e).0.user == s.user,
        remove_next(s, e).1 is DeleteOwnerInvitation ==> remove_next(s, e).0.requester_is_member,
        remove_next(s, e).1 is DeleteCollaborator ==> remove_next(s, e).0.requester_is_member && s.phase
            == RemovePhase::AwaitInvitationDeletion && e matches RemoveEvent::Deleted(Ok(0)),
        remove_next(s, e).1 matches RemoveActionView::DeleteExternalInvitation { email, package_id }
            ==> remove_next(s, e).0.requester_is_member && s.user_is_email && email == s.user
            && package_id == s.package_id,
        remove_next(s, e).1 matches RemoveActionView::FindAccount { user } ==> user == s.user,
{
}

/// A finished removal ignores whatever else happens.
pub proof fn law_remove_finished_is_final<E>(s: RemoveModel, e: RemoveEvent<E>)
    requires
        s.phase == RemovePhase::Finished,
    ensures
        remove_next(s, e).0 == s,
        remove_next(s, e).1 is Stay,
{
}

} // verus!
