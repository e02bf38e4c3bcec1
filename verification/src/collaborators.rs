//! Package collaborators: roles, the collaborator list shown in a
//! package's settings, and the API requests that invite, transfer, answer
//! and remove collaborators.

use vstd::prelude::*;
use crate::text::contains_str;

verus! {

/// A collaborator's role; owners sort first.
#[derive(Clone, Copy, Debug, PartialEq, Eq, Structural)]
pub enum Role {
    Owner,
    Collaborator,
}

/// The number under which a role is stored.
pub open spec fn role_number(r: Role) -> i32 {
    match r {
        Role::Owner => 0,
        Role::Collaborator => 1,
    }
}

impl Role {
    /// The number under which the role is stored.
    pub fn code(&self) -> (n: i32)
        ensures
            n == role_number(*self),
    {
        match self {
            Role::Owner => 0,
            Role::Collaborator => 1,
        }
    }
}

/// The body of a request that names a user by email address or GitHub
/// login.
#[derive(Debug)]
pub struct CollaboratorJson {
    pub user: String,
}

/// The body of a request to invite a user, named by email address or
/// GitHub login.
#[derive(Debug)]
pub struct AddCollaboratorJson {
    pub user: String,
}

/// Whether a collaborator's text names an email address (holds an `@`).
pub open spec fn names_email(user: Seq<char>) -> bool {
    crate::text::contains(user, "@"@)
}

pub fn is_email_like(user: &str) -> (b: bool)
    ensures
        b == names_email(user@),
{
    contains_str(user, "@")
}

/// The messages the collaborator API answers with.
#[derive(Clone, Copy, Debug, PartialEq, Eq, Structural)]
pub enum ApiMessage {
    PackageNotFound,
    UnauthorizedToAddCollaborator,
    UnauthorizedToTransferOwnership,
    InvitationAlreadyExisted,
    AccountNotFound,
    AccountNotFoundInviting,
    AccountNotFoundDontInvite,
    CollaboratorAlreadyExisted,
    CollaboratorNotFound,
    InvitationNotFound,
    InvitationExpired,
    UnexpectedError,
    SuccessfullyInvitedCollaborator,
    SuccessfullyTransferOwnership,
    SuccessfullyAddedCollaborator,
    SuccessfullyRemovedCollaborator,
}

/// An answer of the collaborator API. Errors carry the failure that caused
/// them, when there is one.
pub enum ApiReply<E> {
    /// The session is not authenticated: its cookie is cleared.
    ClearCookie,
    /// A JSON body `{"ok": ok, "msg": msg}`.
    Json { ok: bool, msg: ApiMessage },
    ServerError(E),
    NotFound(ApiMessage, Option<E>),
    Forbidden(ApiMessage, Option<E>),
    BadRequest(ApiMessage, Option<E>),
    Unauthorized(ApiMessage, Option<E>),
    /// The request fails with this error.
    Propagate(E),
}

// ------------------------------------------------------- adding a collaborator

#[derive(Clone, Copy, Debug, PartialEq, Eq, Structural)]
pub enum AddPhase {
    AwaitAuthentication,
    AwaitPackage,
    AwaitUser,
    AwaitMembership,
    AwaitAccount,
    AwaitExternalInvitation,
    AwaitRegisterEmail,
    AwaitInviteeMembership,
    AwaitInvitation,
    AwaitInvitationEmail,
    Finished,
}

/// The state of a request to invite a collaborator to a package.
pub struct AddCollaborator {
    pub phase: AddPhase,
    /// The invited user: an email address or a GitHub login.
    pub user: String,
    /// Whether the invited user was named by an email address.
    pub user_is_email: bool,
    pub package_id: i32,
    pub requester_id: i32,
    pub invitee_id: i32,
    pub invitee_has_generated_email: bool,
    /// The requester was found to be a collaborator of the package.
    pub requester_is_member: bool,
    /// The invitee was found not to be a collaborator yet.
    pub invitee_is_outsider: bool,
}

pub struct AddModel {
    pub phase: AddPhase,
    pub user: Seq<char>,
    pub user_is_email: bool,
    pub package_id: i32,
    pub requester_id: i32,
    pub invitee_id: i32,
    pub invitee_has_generated_email: bool,
    pub requester_is_member: bool,
    pub invitee_is_outsider: bool,
}

impl View for AddCollaborator {
    type V = AddModel;

    open spec fn view(&self) -> AddModel {
        AddModel {
            phase: self.phase,
            user: self.user@,
            user_is_email: self.user_is_email,
            package_id: self.package_id,
            requester_id: self.requester_id,
            invitee_id: self.invitee_id,
            invitee_has_generated_email: self.invitee_has_generated_email,
            requester_is_member: self.requester_is_member,
            invitee_is_outsider: self.invitee_is_outsider,
        }
    }
}

/// An account looked up by email or GitHub login.
pub enum AccountLookup<E> {
    /// The account's id and whether its email is one generated for a GitHub
    /// login.
    Found { id: i32, generated_email: bool },
    /// No such account.
    Missing(E),
    Failed(E),
}

pub enum AddEvent<E> {
    Authenticated(Result<bool, E>),
    PackageLookup(Result<i32, E>),
    User(i32),
    Membership(Result<(), E>),
    Account(AccountLookup<E>),
    ExternalInvitation(Result<(), E>),
    /// An email was queued (or could not be).
    Queued(Result<(), E>),
    /// Whether the invitee already collaborates on the package.
    InviteeMembership(bool),
    Invitation(Result<(), E>),
    /// The connection to the store could not be had.
    ServerFailure(E),
}

pub enum AddAction<E> {
    CheckAuthentication,
    FindPackage,
    GetUser,
    CheckMembership { package_id: i32, account_id: i32 },
    /// Look the account up by email address or GitHub login.
    FindAccount { user: String },
    /// Record an invitation, by `invited_by`, of the address `email`, which
    /// has no account, to the package.
    CreateExternalInvitation { email: String, invited_by: i32, package_id: i32 },
    /// Queue the email inviting the address `to` to register.
    QueueRegisterEmail { to: String },
    CheckInviteeMembership { package_id: i32, account_id: i32 },
    CreateOwnerInvitation { invitee: i32, invited_by: i32, package_id: i32, transferring: bool },
    /// Queue the invitation email to the invitee's address.
    QueueInvitationEmail,
    Reply(ApiReply<E>),
    Stay,
}

pub enum AddActionView<E> {
    CheckAuthentication,
    FindPackage,
    GetUser,
    CheckMembership { package_id: i32, account_id: i32 },
    FindAccount { user: Seq<char> },
    CreateExternalInvitation { email: Seq<char>, invited_by: i32, package_id: i32 },
    QueueRegisterEmail { to: Seq<char> },
    CheckInviteeMembership { package_id: i32, account_id: i32 },
    CreateOwnerInvitation { invitee: i32, invited_by: i32, package_id: i32, transferring: bool },
    QueueInvitationEmail,
    Reply(ApiReply<E>),
    Stay,
}

impl<E> View for AddAction<E> {
    type V = AddActionView<E>;

    open spec fn view(&self) -> AddActionView<E> {
        match self {
            AddAction::CheckAuthentication => AddActionView::CheckAuthentication,
            AddAction::FindPackage => AddActionView::FindPackage,
            AddAction::GetUser => AddActionView::GetUser,
            AddAction::CheckMembership { package_id, account_id } => AddActionView::CheckMembership {
                package_id: *package_id,
                account_id: *account_id,
            },
            AddAction::FindAccount { user } => AddActionView::FindAccount { user: user@ },
            AddAction::CreateExternalInvitation { email, invited_by, package_id } =>
                AddActionView::CreateExternalInvitation {
                    email: email@,
                    invited_by: *invited_by,
                    package_id: *package_id,
                },
            AddAction::QueueRegisterEmail { to } => AddActionView::QueueRegisterEmail { to: to@ },
            AddAction::CheckInviteeMembership { package_id, account_id } =>
                AddActionView::CheckInviteeMembership { package_id: *package_id, account_id: *account_id },
            AddAction::CreateOwnerInvitation { invitee, invited_by, package_id, transferring } =>
                AddActionView::CreateOwnerInvitation {
                    invitee: *invitee,
                    invited_by: *invited_by,
                    package_id: *package_id,
                    transferring: *transferring,
                },
            AddAction::QueueInvitationEmail => AddActionView::QueueInvitationEmail,
            AddAction::Reply(r) => AddActionView::Reply(*r),
            AddAction::Stay => AddActionView::Stay,
        }
    }
}

pub open spec fn add_next<E>(s: AddModel, e: AddEvent<E>) -> (AddModel, AddActionView<E>) {
    let done = AddModel { phase: AddPhase::Finished, ..s };
    match (s.phase, e) {
        (AddPhase::Finished, _) => (s, AddActionView::Stay),
        (_, AddEvent::ServerFailure(x)) => (done, AddActionView::Reply(ApiReply::ServerError(x))),
        (AddPhase::AwaitAuthentication, AddEvent::Authenticated(r)) => match r {
            Err(x) => (done, AddActionView::Reply(ApiReply::Propagate(x))),
            Ok(false) => (done, AddActionView::Reply(ApiReply::ClearCookie)),
            Ok(true) => (AddModel { phase: AddPhase::AwaitPackage, ..s }, AddActionView::FindPackage),
        },
        (AddPhase::AwaitPackage, AddEvent::PackageLookup(r)) => match r {
            Err(x) => (done, AddActionView::Reply(ApiReply::NotFound(ApiMessage::PackageNotFound, Some(x)))),
            Ok(id) => (AddModel { phase: AddPhase::AwaitUser, package_id: id, ..s }, AddActionView::GetUser),
        },
        (AddPhase::AwaitUser, AddEvent::User(uid)) => (
            AddModel { phase: AddPhase::AwaitMembership, requester_id: uid, ..s },
            AddActionView::CheckMembership { package_id: s.package_id, account_id: uid },
        ),
        (AddPhase::AwaitMembership, AddEvent::Membership(r)) => match r {
            Err(x) => (
                done,
                AddActionView::Reply(ApiReply::Forbidden(ApiMessage::UnauthorizedToAddCollaborator, Some(x))),
            ),
            Ok(_) => (
                AddModel { phase: AddPhase::AwaitAccount, requester_is_member: true, ..s },
                AddActionView::FindAccount { user: s.user },
            ),
        },
        (AddPhase::AwaitAccount, AddEvent::Account(a)) => match a {
            AccountLookup::Found { id, generated_email } => (
                AddModel {
                    phase: AddPhase::AwaitInviteeMembership,
                    invitee_id: id,
                    invitee_has_generated_email: generated_email,
                    ..s
                },
                AddActionView::CheckInviteeMembership { package_id: s.package_id, account_id: id },
            ),
            AccountLookup::Missing(x) => if s.user_is_email {
                (
                    AddModel { phase: AddPhase::AwaitExternalInvitation, ..s },
                    AddActionView::CreateExternalInvitation {
                        email: s.user,
                        invited_by: s.requester_id,
                        package_id: s.package_id,
                    },
                )
            } else {
                (done, AddActionView::Reply(ApiReply::NotFound(ApiMessage::AccountNotFoundDontInvite, Some(x))))
            },
            AccountLookup::Failed(x) => (
                done,
                AddActionView::Reply(ApiReply::NotFound(ApiMessage::AccountNotFoundDontInvite, Some(x))),
            ),
        },
        (AddPhase::AwaitExternalInvitation, AddEvent::ExternalInvitation(r)) => match r {
            Err(x) => (
                done,
                AddActionView::Reply(ApiReply::BadRequest(ApiMessage::InvitationAlreadyExisted, Some(x))),
            ),
            Ok(_) => (
                AddModel { phase: AddPhase::AwaitRegisterEmail, ..s },
                AddActionView::QueueRegisterEmail { to: s.user },
            ),
        },
        (AddPhase::AwaitRegisterEmail, AddEvent::Queued(_)) => (
            done,
            AddActionView::Reply(ApiReply::Json { ok: false, msg: ApiMessage::AccountNotFoundInviting }),
        ),
        (AddPhase::AwaitInviteeMembership, AddEvent::InviteeMembership(member)) => if member {
            (done, AddActionView::Reply(ApiReply::BadRequest(ApiMessage::CollaboratorAlreadyExisted, None)))
        } else {
            (
                AddModel { phase: AddPhase::AwaitInvitation, invitee_is_outsider: true, ..s },
                AddActionView::CreateOwnerInvitation {
                    invitee: s.invitee_id,
                    invited_by: s.requester_id,
                    package_id: s.package_id,
                    transferring: false,
                },
            )
        },
        (AddPhase::AwaitInvitation, AddEvent::Invitation(r)) => match r {
            Err(x) => (
                done,
                AddActionView::Reply(ApiReply::BadRequest(ApiMessage::InvitationAlreadyExisted, Some(x))),
            ),
            Ok(_) => if s.invitee_has_generated_email {
                (
                    done,
                    AddActionView::Reply(
                        ApiReply::Json { ok: true, msg: ApiMessage::SuccessfullyInvitedCollaborator },
                    ),
                )
            } else {
                (AddModel { phase: AddPhase::AwaitInvitationEmail, ..s }, AddActionView::QueueInvitationEmail)
            },
        },
        (AddPhase::AwaitInvitationEmail, AddEvent::Queued(r)) => match r {
            Err(x) => (done, AddActionView::Reply(ApiReply::Propagate(x))),
            Ok(_) => (
                done,
                AddActionView::Reply(ApiReply::Json { ok: true, msg: ApiMessage::SuccessfullyInvitedCollaborator }),
            ),
        },
        _ => (s, AddActionView::Stay),
    }
}

impl AddCollaborator {
    /// Starts a request to invite `user` (an email address or a GitHub login).
    pub fn new<E>(user: &str) -> (r: (AddCollaborator, AddAction<E>))
        ensures
            r.0@ == (AddModel {
                phase: AddPhase::AwaitAuthentication,
                user: user@,
                user_is_email: names_email(user@),
                package_id: 0,
                requester_id: 0,
                invitee_id: 0,
                invitee_has_generated_email: false,
                requester_is_member: false,
                invitee_is_outsider: false,
            }),
            add_checked(r.0@),
            r.1 is CheckAuthentication,
    {
        (
            AddCollaborator {
                phase: AddPhase::AwaitAuthentication,
                user: String::from_str(user),
                user_is_email: is_email_like(user),
                package_id: 0,
                requester_id: 0,
                invitee_id: 0,
                invitee_has_generated_email: false,
                requester_is_member: false,
                invitee_is_outsider: false,
            },
            AddAction::CheckAuthentication,
        )
    }

    /// The request, finished.
    fn finish(self) -> (r: AddCollaborator)
        ensures
            r@ == (AddModel { phase: AddPhase::Finished, ..self@ }),
    {
        AddCollaborator { phase: AddPhase::Finished, ..self }
    }

    /// The next state and action after `event`.
    pub fn step<E>(self, event: AddEvent<E>) -> (r: (AddCollaborator, AddAction<E>))
        ensures
            r.0@ == add_next(self@, event).0,
            r.1@ == add_next(self@, event).1,
    {
        let phase = self.phase;
        let package_id = self.package_id;
        let requester_id = self.requester_id;
        if phase == AddPhase::Finished {
            return (self, AddAction::Stay);
        }
        match event {
            AddEvent::ServerFailure(x) => (self.finish(), AddAction::Reply(ApiReply::ServerError(x))),
            AddEvent::Authenticated(r) => {
                if phase != AddPhase::AwaitAuthentication {
                    return (self, AddAction::Stay);
                }
                match r {
                    Err(x) => (self.finish(), AddAction::Reply(ApiReply::Propagate(x))),
                    Ok(false) => (self.finish(), AddAction::Reply(ApiReply::ClearCookie)),
                    Ok(true) => (AddCollaborator { phase: AddPhase::AwaitPackage, ..self }, AddAction::FindPackage),
                }
            },
            AddEvent::PackageLookup(r) => {
                if phase != AddPhase::AwaitPackage {
                    return (self, AddAction::Stay);
                }
                match r {
                    Err(x) => (
                        self.finish(),
                        AddAction::Reply(ApiReply::NotFound(ApiMessage::PackageNotFound, Some(x))),
                    ),
                    Ok(id) => (
                        AddCollaborator { phase: AddPhase::AwaitUser, package_id: id, ..self },
                        AddAction::GetUser,
                    ),
                }
            },
            AddEvent::User(uid) => {
                if phase != AddPhase::AwaitUser {
                    return (self, AddAction::Stay);
                }
                (
                    AddCollaborator { phase: AddPhase::AwaitMembership, requester_id: uid, ..self },
                    AddAction::CheckMembership { package_id, account_id: uid },
                )
            },
            AddEvent::Membership(r) => {
                if phase != AddPhase::AwaitMembership {
                    return (self, AddAction::Stay);
                }
                match r {
                    Err(x) => (
                        self.finish(),
                        AddAction::Reply(ApiReply::Forbidden(ApiMessage::UnauthorizedToAddCollaborator, Some(x))),
                    ),
                    Ok(_) => {
                        let user = self.user.clone();
                        (
                            AddCollaborator { phase: AddPhase::AwaitAccount, requester_is_member: true, ..self },
                            AddAction::FindAccount { user },
                        )
                    },
                }
            },
            AddEvent::Account(a) => {
                if phase != AddPhase::AwaitAccount {
                    return (self, AddAction::Stay);
                }
                match a {
                    AccountLookup::Found { id, generated_email } => (
                        AddCollaborator {
                            phase: AddPhase::AwaitInviteeMembership,
                            invitee_id: id,
                            invitee_has_generated_email: generated_email,
                            ..self
                        },
                        AddAction::CheckInviteeMembership { package_id, account_id: id },
                    ),
                    AccountLookup::Missing(x) => if self.user_is_email {
                        let email = self.user.clone();
                        (
                            AddCollaborator { phase: AddPhase::AwaitExternalInvitation, ..self },
                            AddAction::CreateExternalInvitation { email, invited_by: requester_id, package_id },
                        )
                    } else {
                        (
                            self.finish(),
                            AddAction::Reply(ApiReply::NotFound(ApiMessage::AccountNotFoundDontInvite, Some(x))),
                        )
                    },
                    AccountLookup::Failed(x) => (
                        self.finish(),
                        AddAction::Reply(ApiReply::NotFound(ApiMessage::AccountNotFoundDontInvite, Some(x))),
                    ),
                }
            },
            AddEvent::ExternalInvitation(r) => {
                if phase != AddPhase::AwaitExternalInvitation {
                    return (self, AddAction::Stay);
                }
                match r {
                    Err(x) => (
                        self.finish(),
                        AddAction::Reply(ApiReply::BadRequest(ApiMessage::InvitationAlreadyExisted, Some(x))),
                    ),
                    Ok(_) => {
                        let to = self.user.clone();
                        (
                            AddCollaborator { phase: AddPhase::AwaitRegisterEmail, ..self },
                            AddAction::QueueRegisterEmail { to },
                        )
                    },
                }
            },
            AddEvent::Queued(r) => {
                if phase == AddPhase::AwaitRegisterEmail {
                    (
                        self.finish(),
                        AddAction::Reply(ApiReply::Json { ok: false, msg: ApiMessage::AccountNotFoundInviting }),
                    )
                } else if phase == AddPhase::AwaitInvitationEmail {
                    match r {
                        Err(x) => (self.finish(), AddAction::Reply(ApiReply::Propagate(x))),
                        Ok(_) => (
                            self.finish(),
                            AddAction::Reply(
                                ApiReply::Json { ok: true, msg: ApiMessage::SuccessfullyInvitedCollaborator },
                            ),
                        ),
                    }
                } else {
                    (self, AddAction::Stay)
                }
            },
            AddEvent::InviteeMembership(member) => {
                if phase != AddPhase::AwaitInviteeMembership {
                    return (self, AddAction::Stay);
                }
                if member {
                    (
                        self.finish(),
                        AddAction::Reply(ApiReply::BadRequest(ApiMessage::CollaboratorAlreadyExisted, None)),
                    )
                } else {
                    let invitee = self.invitee_id;
                    (
                        AddCollaborator { phase: AddPhase::AwaitInvitation, invitee_is_outsider: true, ..self },
                        AddAction::CreateOwnerInvitation {
                            invitee,
                            invited_by: requester_id,
                            package_id,
                            transferring: false,
                        },
                    )
                }
            },
            AddEvent::Invitation(r) => {
                if phase != AddPhase::AwaitInvitation {
                    return (self, AddAction::Stay);
                }
                match r {
                    Err(x) => (
                        self.finish(),
                        AddAction::Reply(ApiReply::BadRequest(ApiMessage::InvitationAlreadyExisted, Some(x))),
                    ),
                    Ok(_) => if self.invitee_has_generated_email {
                        (
                            self.finish(),
                            AddAction::Reply(
                                ApiReply::Json { ok: true, msg: ApiMessage::SuccessfullyInvitedCollaborator },
                            ),
                        )
                    } else {
                        (
                            AddCollaborator { phase: AddPhase::AwaitInvitationEmail, ..self },
                            AddAction::QueueInvitationEmail,
                        )
                    },
                }
            },
        }
    }
}

} // verus!

verus! {

/// What an invitation request has established by its phase: past the
/// requester's membership check, the requester is a collaborator; past the
/// invitee's check, the invitee is not one yet.
pub open spec fn add_checked(s: AddModel) -> bool {
    &&& (s.phase == AddPhase::AwaitAccount || s.phase == AddPhase::AwaitExternalInvitation
        || s.phase == AddPhase::AwaitRegisterEmail || s.phase == AddPhase::AwaitInviteeMembership
        || s.phase == AddPhase::AwaitInvitation || s.phase == AddPhase::AwaitInvitationEmail)
        ==> s.requester_is_member
    &&& (s.phase == AddPhase::AwaitInvitation || s.phase == AddPhase::AwaitInvitationEmail) ==> s.invitee_is_outsider
}

/// Only a collaborator of a package invites others to it, and the
/// invitation goes to the user the request names: every step keeps what the
/// request has checked and the named user; an invitation (to an account or
/// to an address) is recorded only once the requester was found a
/// collaborator; an account is invited only once it was found not to
/// collaborate yet, to collaborate (not to own), by the requester, on the
/// package; an address is invited, and asked to register, only when the
/// named user is that address.
pub proof fn law_only_members_invite<E>(s: AddModel, e: AddEvent<E>)
    requires
        add_checked(s),
    ensures
        add_checked(add_next(s, e).0),
        add_next(s, e).0.user == s.user,
        add_next(s, e).1 matches AddActionView::CreateOwnerInvitation { invitee, invited_by, package_id, transferring }
            ==> add_next(s, e).0.requester_is_member && add_next(s, e).0.invitee_is_outsider && !transferring
            && invitee == s.invitee_id && invited_by == s.requester_id && package_id == s.package_id,
        add_next(s, e).1 matches AddActionView::CreateExternalInvitation { email, invited_by, package_id }
            ==> add_next(s, e).0.requester_is_member && s.user_is_email && email == s.user
            && invited_by == s.requester_id && package_id == s.package_id,
        add_next(s, e).1 matches AddActionView::QueueRegisterEmail { to } ==> to == s.user
            && s.phase == AddPhase::AwaitExternalInvitation,
        add_next(s, e).1 matches AddActionView::FindAccount { user } ==> user == s.user,
{
}

/// A finished request ignores whatever else happens.
pub proof fn law_add_finished_is_final<E>(s: AddModel, e: AddEvent<E>)
    requires
        s.phase == AddPhase::Finished,
    ensures
        add_next(s, e).0 == s,
        add_next(s, e).1 is Stay,
{
}

} // verus!
