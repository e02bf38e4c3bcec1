//! A request to hand a package over to another of its collaborators: the
//! roles stored for the requester and the new owner, owners first, must be
//! an owner and a collaborator (which of the two is which is not looked
//! at); the new owner is then sent a transferring invitation.

use vstd::prelude::*;
use crate::collaborators::{AccountLookup, ApiMessage, ApiReply};

verus! {

#[derive(Clone, Copy, Debug, PartialEq, Eq, Structural)]
pub enum TransferPhase {
    AwaitAuthentication,
    AwaitPackage,
    AwaitAccount,
    AwaitUser,
    AwaitRoles,
    AwaitInvitation,
    AwaitInvitationEmail,
    Finished,
}

/// The state of a request to transfer a package's ownership.
#[derive(Clone, Copy)]
pub struct TransferOwnership {
    pub phase: TransferPhase,
    pub package_id: i32,
    pub requester_id: i32,
    pub new_owner_id: i32,
    pub new_owner_has_generated_email: bool,
    /// The roles of requester and new owner were found to be owner and
    /// collaborator.
    pub roles_checked: bool,
}

pub enum TransferEvent<E> {
    Authenticated(Result<bool, E>),
    PackageLookup(Result<i32, E>),
    Account(AccountLookup<E>),
    User(i32),
    /// The roles stored for the requester and the new owner on the package,
    /// owners first.
    Roles(Result<Vec<i32>, E>),
    Invitation(Result<(), E>),
    Queued(Result<(), E>),
    ServerFailure(E),
}

pub enum TransferAction<E> {
    CheckAuthentication,
    FindPackage,
    FindAccount,
    GetUser,
    /// Load the roles of both accounts on the package, ordered by role.
    LoadRoles { package_id: i32, requester: i32, new_owner: i32 },
    CreateTransferInvitation { invitee: i32, invited_by: i32, package_id: i32 },
    QueueInvitationEmail,
    Reply(ApiReply<E>),
    Stay,
}

/// Whether two roles listed owners first are an owner and a collaborator.
pub open spec fn owner_then_collaborator(roles: Seq<i32>) -> bool {
    roles.len() == 2 && roles[0] == 0 && roles[1] == 1
}

pub open spec fn transfer_next<E>(s: TransferOwnership, e: TransferEvent<E>) -> (TransferOwnership, TransferAction<E>) {
    let done = TransferOwnership { phase: TransferPhase::Finished, ..s };
    match (s.phase, e) {
        (TransferPhase::Finished, _) => (s, TransferAction::Stay),
        (_, TransferEvent::ServerFailure(x)) => (done, TransferAction::Reply(ApiReply::ServerError(x))),
        (TransferPhase::AwaitAuthentication, TransferEvent::Authenticated(r)) => match r {
            Err(x) => (done, TransferAction::Reply(ApiReply::Propagate(x))),
            Ok(false) => (done, TransferAction::Reply(ApiReply::ClearCookie)),
            Ok(true) => (TransferOwnership { phase: TransferPhase::AwaitPackage, ..s }, TransferAction::FindPackage),
        },
        (TransferPhase::AwaitPackage, TransferEvent::PackageLookup(r)) => match r {
            Err(x) => (done, TransferAction::Reply(ApiReply::NotFound(ApiMessage::PackageNotFound, Some(x)))),
            Ok(id) => (
                TransferOwnership { phase: TransferPhase::AwaitAccount, package_id: id, ..s },
                TransferAction::FindAccount,
            ),
        },
        (TransferPhase::AwaitAccount, TransferEvent::Account(a)) => match a {
            AccountLookup::Found { id, generated_email } => (
                TransferOwnership {
                    phase: TransferPhase::AwaitUser,
                    new_owner_id: id,
                    new_owner_has_generated_email: generated_email,
                    ..s
                },
                TransferAction::GetUser,
            ),
            AccountLookup::Missing(x) => (
                done,
                TransferAction::Reply(ApiReply::NotFound(ApiMessage::AccountNotFound, Some(x))),
            ),
            AccountLookup::Failed(x) => (
                done,
                TransferAction::Reply(ApiReply::NotFound(ApiMessage::AccountNotFound, Some(x))),
            ),
        },
        (TransferPhase::AwaitUser, TransferEvent::User(uid)) => (
            TransferOwnership { phase: TransferPhase::AwaitRoles, requester_id: uid, ..s },
            TransferAction::LoadRoles { package_id: s.package_id, requester: uid, new_owner: s.new_owner_id },
        ),
        (TransferPhase::AwaitRoles, TransferEvent::Roles(r)) => match r {
            Err(x) => (
                done,
                TransferAction::Reply(ApiReply::Forbidden(ApiMessage::UnauthorizedToAddCollaborator, Some(x))),
            ),
            Ok(roles) => if roles@.len() != 2 {
                (
                    done,
                    TransferAction::Reply(ApiReply::BadRequest(ApiMessage::UnauthorizedToTransferOwnership, None)),
                )
            } else if !owner_then_collaborator(roles@) {
                (
                    done,
                    TransferAction::Reply(ApiReply::Forbidden(ApiMessage::UnauthorizedToTransferOwnership, None)),
                )
            } else {
                (
                    TransferOwnership { phase: TransferPhase::AwaitInvitation, roles_checked: true, ..s },
                    TransferAction::CreateTransferInvitation {
                        invitee: s.new_owner_id,
                        invited_by: s.requester_id,
                        package_id: s.package_id,
                    },
                )
            },
        },
        (TransferPhase::AwaitInvitation, TransferEvent::Invitation(r)) => match r {
            Err(x) => (
                done,
                TransferAction::Reply(ApiReply::BadRequest(ApiMessage::InvitationAlreadyExisted, Some(x))),
            ),
            Ok(_) => if s.new_owner_has_generated_email {
                (
                    done,
                    TransferAction::Reply(ApiReply::Json { ok: true, msg: ApiMessage::SuccessfullyTransferOwnership }),
                )
            } else {
                (
                    TransferOwnership { phase: TransferPhase::AwaitInvitationEmail, ..s },
                    TransferAction::QueueInvitationEmail,
                )
            },
        },
        (TransferPhase::AwaitInvitationEmail, TransferEvent::Queued(r)) => match r {
            Err(x) => (done, TransferAction::Reply(ApiReply::Propagate(x))),
            Ok(_) => (
                done,
                TransferAction::Reply(ApiReply::Json { ok: true, msg: ApiMessage::SuccessfullyTransferOwnership }),
            ),
        },
        _ => (s, TransferAction::Stay),
    }
}

fn roles_are_owner_then_collaborator(roles: &Vec<i32>) -> (b: bool)
    ensures
        b == owner_then_collaborator(roles@),
{
    roles.len() == 2 && roles[0] == 0 && roles[1] == 1
}

impl TransferOwnership {
    /// Starts a transfer request.
    pub fn new<E>() -> (r: (TransferOwnership, TransferAction<E>))
        ensures
            r.0 == (TransferOwnership {
                phase: TransferPhase::AwaitAuthentication,
                package_id: 0,
                requester_id: 0,
                new_owner_id: 0,
                new_owner_has_generated_email: false,
                roles_checked: false,
            }),
            transfer_checked(r.0),
            r.1 is CheckAuthentication,
    {
        (
            TransferOwnership {
                phase: TransferPhase::AwaitAuthentication,
                package_id: 0,
                requester_id: 0,
                new_owner_id: 0,
                new_owner_has_generated_email: false,
                roles_checked: false,
            },
            TransferAction::CheckAuthentication,
        )
    }

    /// The next state and action after `event`.
    pub fn step<E>(self, event: TransferEvent<E>) -> (r: (TransferOwnership, TransferAction<E>))
        ensures
            r == transfer_next(self, event),
    {
        let done = TransferOwnership { phase: TransferPhase::Finished, ..self };
        if self.phase == TransferPhase::Finished {
            return (self, TransferAction::Stay);
        }
        match event {
            TransferEvent::ServerFailure(x) => (done, TransferAction::Reply(ApiReply::ServerError(x))),
            TransferEvent::Authenticated(r) => {
                if self.phase != TransferPhase::AwaitAuthentication {
                    return (self, TransferAction::Stay);
                }
                match r {
                    Err(x) => (done, TransferAction::Reply(ApiReply::Propagate(x))),
                    Ok(false) => (done, TransferAction::Reply(ApiReply::ClearCookie)),
                    Ok(true) => (
                        TransferOwnership { phase: TransferPhase::AwaitPackage, ..self },
                        TransferAction::FindPackage,
                    ),
                }
            },
            TransferEvent::PackageLookup(r) => {
                if self.phase != TransferPhase::AwaitPackage {
                    return (self, TransferAction::Stay);
                }
                match r {
                    Err(x) => (
                        done,
                        TransferAction::Reply(ApiReply::NotFound(ApiMessage::PackageNotFound, Some(x))),
                    ),
                    Ok(id) => (
                        TransferOwnership { phase: TransferPhase::AwaitAccount, package_id: id, ..self },
                        TransferAction::FindAccount,
                    ),
                }
            },
            TransferEvent::Account(a) => {
                if self.phase != TransferPhase::AwaitAccount {
                    return (self, TransferAction::Stay);
                }
                match a {
                    AccountLookup::Found { id, generated_email } => (
                        TransferOwnership {
                            phase: TransferPhase::AwaitUser,
                            new_owner_id: id,
                            new_owner_has_generated_email: generated_email,
                            ..self
                        },
                        TransferAction::GetUser,
                    ),
                    AccountLookup::Missing(x) => (
                        done,
                        TransferAction::Reply(ApiReply::NotFound(ApiMessage::AccountNotFound, Some(x))),
                    ),
                    AccountLookup::Failed(x) => (
                        done,
                        TransferAction::Reply(ApiReply::NotFound(ApiMessage::AccountNotFound, Some(x))),
                    ),
                }
            },
            TransferEvent::User(uid) => {
                if self.phase != TransferPhase::AwaitUser {
                    return (self, TransferAction::Stay);
                }
                (
                    TransferOwnership { phase: TransferPhase::AwaitRoles, requester_id: uid, ..self },
                    TransferAction::LoadRoles {
                        package_id: self.package_id,
                        requester: uid,
                        new_owner: self.new_owner_id,
                    },
                )
            },
            TransferEvent::Roles(r) => {
                if self.phase != TransferPhase::AwaitRoles {
                    return (self, TransferAction::Stay);
                }
                match r {
                    Err(x) => (
                        done,
                        TransferAction::Reply(
                            ApiReply::Forbidden(ApiMessage::UnauthorizedToAddCollaborator, Some(x)),
                        ),
                    ),
                    Ok(roles) => if roles.len() != 2 {
                        (
                            done,
                            TransferAction::Reply(
                                ApiReply::BadRequest(ApiMessage::UnauthorizedToTransferOwnership, None),
                            ),
                        )
                    } else if !roles_are_owner_then_collaborator(&roles) {
                        (
                            done,
                            TransferAction::Reply(
                                ApiReply::Forbidden(ApiMessage::UnauthorizedToTransferOwnership, None),
                            ),
                        )
                    } else {
                        (
                            TransferOwnership { phase: TransferPhase::AwaitInvitation, roles_checked: true, ..self },
                            TransferAction::CreateTransferInvitation {
                                invitee: self.new_owner_id,
                                invited_by: self.requester_id,
                                package_id: self.package_id,
                            },
                        )
                    },
                }
            },
            TransferEvent::Invitation(r) => {
                if self.phase != TransferPhase::AwaitInvitation {
                    return (self, TransferAction::Stay);
                }
                match r {
                    Err(x) => (
                        done,
                        TransferAction::Reply(ApiReply::BadRequest(ApiMessage::InvitationAlreadyExisted, Some(x))),
                    ),
                    Ok(_) => if self.new_owner_has_generated_email {
                        (
                            done,
                            TransferAction::Reply(
                                ApiReply::Json { ok: true, msg: ApiMessage::SuccessfullyTransferOwnership },
                            ),
                        )
                    } else {
                        (
                            TransferOwnership { phase: TransferPhase::AwaitInvitationEmail, ..self },
                            TransferAction::QueueInvitationEmail,
                        )
                    },
                }
            },
            TransferEvent::Queued(r) => {
                if self.phase != TransferPhase::AwaitInvitationEmail {
                    return (self, TransferAction::Stay);
                }
                match r {
                    Err(x) => (done, TransferAction::Reply(ApiReply::Propagate(x))),
                    Ok(_) => (
                        done,
                        TransferAction::Reply(
                            ApiReply::Json { ok: true, msg: ApiMessage::SuccessfullyTransferOwnership },
                        ),
                    ),
                }
            },
        }
    }
}

/// What a transfer request has established by its phase: past the roles
/// check, the requester and the new owner were found to be the owner and a
/// collaborator.
pub open spec fn transfer_checked(s: TransferOwnership) -> bool {
    (s.phase == TransferPhase::AwaitInvitation || s.phase == TransferPhase::AwaitInvitationEmail) ==> s.roles_checked
}

/// A package is offered to a new owner only once the roles stored for the
/// requester and the new owner were found to be an owner and a
/// collaborator: every step keeps what the request has checked, and the
/// transferring invitation goes to the account found, from the requester,
/// for the package.
pub proof fn law_transfer_needs_owner_and_collaborator<E>(s: TransferOwnership, e: TransferEvent<E>)
    requires
        transfer_checked(s),
    ensures
        transfer_checked(transfer_next(s, e).0),
        transfer_next(s, e).1 matches TransferAction::CreateTransferInvitation { invitee, invited_by, package_id }
            ==> transfer_next(s, e).0.roles_checked && invitee == s.new_owner_id && invited_by == s.requester_id
            && package_id == s.package_id,
        s.phase == TransferPhase::AwaitRoles ==> (e matches TransferEvent::Roles(Ok(roles)) ==> (transfer_next(
            s,
            e,
        ).1 is CreateTransferInvitation <==> owner_then_collaborator(roles@))),
{
}

/// A finished request ignores whatever else happens.
pub proof fn law_transfer_finished_is_final<E>(s: TransferOwnership, e: TransferEvent<E>)
    requires
        s.phase == TransferPhase::Finished,
    ensures
        transfer_next(s, e).0 == s,
        transfer_next(s, e).1 is Stay,
{
}

} // verus!
