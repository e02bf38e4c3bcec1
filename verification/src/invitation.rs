//! Invitations to collaborate on a package: when they expire, and the
//! request by which the invited user accepts or declines one.

use vstd::prelude::*;
use crate::collaborators::{ApiMessage, ApiReply, Role};
use crate::text::concat_str;

verus! {

/// A point in time: whole seconds since the epoch and the nanoseconds
/// past them.
#[derive(Clone, Copy, Debug, PartialEq, Eq, Structural)]
pub struct Timestamp {
    pub secs: i64,
    pub nanos: u32,
}

pub const SECONDS_PER_DAY: i64 = 86400;

/// `a` is not later than `b`.
pub open spec fn not_later(a: Timestamp, b: Timestamp) -> bool {
    a.secs < b.secs || (a.secs == b.secs && a.nanos <= b.nanos)
}

/// Whether `created + days` can be represented.
pub open spec fn expiry_defined(created: Timestamp, days: i64) -> bool {
    &&& 0 <= days
    &&& days * 86400 <= i64::MAX
    &&& created.secs + days * 86400 <= i64::MAX
}

/// The moment an invitation made at `created` expires, `days` days later.
pub open spec fn expiry(created: Timestamp, days: i64) -> Timestamp {
    Timestamp { secs: (created.secs + days * 86400) as i64, nanos: created.nanos }
}

/// An invitation made at `created` has expired at `now` when its expiry is
/// not later than `now`.
pub open spec fn has_expired(created: Timestamp, days: i64, now: Timestamp) -> bool {
    not_later(expiry(created, days), now)
}

/// Whether the expiry of an invitation made at `created` can be
/// represented.
pub fn is_expiry_defined(created: Timestamp, days: i64) -> (b: bool)
    ensures
        b == expiry_defined(created, days),
{
    if days < 0 {
        return false;
    }
    match days.checked_mul(SECONDS_PER_DAY) {
        None => false,
        Some(span) => created.secs.checked_add(span).is_some(),
    }
}

/// The moment an invitation made at `created` expires.
pub fn expires_at(created: Timestamp, days: i64) -> (t: Timestamp)
    requires
        expiry_defined(created, days),
    ensures
        t == expiry(created, days),
{
    Timestamp { secs: created.secs + days * SECONDS_PER_DAY, nanos: created.nanos }
}

/// Whether an invitation made at `created` has expired at `now`.
pub fn is_expired(created: Timestamp, days: i64, now: Timestamp) -> (b: bool)
    requires
        expiry_defined(created, days),
    ensures
        b == has_expired(created, days, now),
{
    let e = expires_at(created, days);
    e.secs < now.secs || (e.secs == now.secs && e.nanos <= now.nanos)
}

/// Whether a new invitation first deletes the one stored for the same
/// person and package: only an expired one is deleted; otherwise the new
/// one is not stored.
pub fn replaces_existing(existing: Option<Timestamp>, days: i64, now: Timestamp) -> (b: bool)
    requires
        existing matches Some(c) ==> expiry_defined(c, days),
    ensures
        b == match existing {
            Some(c) => has_expired(c, days, now),
            None => false,
        },
{
    match existing {
        Some(c) => is_expired(c, days, now),
        None => false,
    }
}

/// An invitation as listed for the invited user.
#[derive(Debug)]
pub struct OwnerInvitationQuery {
    pub invited_user_id: i32,
    pub invited_by_user_id: i32,
    pub invited_by_user_email: String,
    pub package_id: i32,
    pub package_name: String,
    pub is_transferring: bool,
}

/// Two listed invitations are equal when they invite the same user, from
/// the same user, to the same package, in the same way.
impl PartialEq for OwnerInvitationQuery {
    fn eq(&self, other: &OwnerInvitationQuery) -> (r: bool) {
        self.invited_user_id == other.invited_user_id && self.invited_by_user_id == other.invited_by_user_id
            && self.package_id == other.package_id && self.is_transferring == other.is_transferring
    }
}

impl vstd::std_specs::cmp::PartialEqSpecImpl for OwnerInvitationQuery {
    open spec fn obeys_eq_spec() -> bool {
        true
    }

    open spec fn eq_spec(&self, other: &OwnerInvitationQuery) -> bool {
        &&& self.invited_user_id == other.invited_user_id
        &&& self.invited_by_user_id == other.invited_by_user_id
        &&& self.package_id == other.package_id
        &&& self.is_transferring == other.is_transferring
    }
}

impl Eq for OwnerInvitationQuery {}

/// The answer of an invited user: the package and whether they accept.
#[derive(Clone, Copy, Debug, PartialEq, Eq, Structural)]
pub struct InvitationResponse {
    pub package_id: i32,
    pub accepted: bool,
}

/// What the request needs of a stored invitation.
#[derive(Clone, Copy, Debug, PartialEq, Eq, Structural)]
pub struct InvitationRecord {
    pub invited_user_id: i32,
    pub package_id: i32,
    pub is_transferring: bool,
    pub created_at: Timestamp,
}

#[derive(Clone, Copy, Debug, PartialEq, Eq, Structural)]
pub enum AnswerPhase {
    AwaitAuthentication,
    AwaitUser,
    AwaitInvitation,
    AwaitAccept,
    AwaitOwnerChange,
    AwaitDelete,
    Finished,
}

/// The state of a request answering an invitation. Accepting and changing
/// the owner run in one transaction, which is rolled back when the reply
/// is an error.
#[derive(Clone, Copy)]
pub struct AnswerInvitation {
    pub phase: AnswerPhase,
    pub response: InvitationResponse,
    /// The clock when the request came in.
    pub now: Timestamp,
    /// How many days an invitation stays valid.
    pub expiration_days: i64,
    pub invitation: InvitationRecord,
    /// The invitation was found not to have expired.
    pub checked_unexpired: bool,
}

pub enum AnswerEvent<E> {
    Authenticated(Result<bool, E>),
    User(i32),
    Invitation(Result<InvitationRecord, E>),
    Accepted(Result<(), E>),
    OwnerChanged(Result<(), E>),
    Deleted(Result<(), E>),
    ServerFailure(E),
}

pub enum AnswerAction<E> {
    CheckAuthentication,
    GetUser,
    FindInvitation { invited_user_id: i32, package_id: i32 },
    /// Make the invited user a collaborator (or, for a transfer, swap the
    /// roles) and delete the invitation.
    Accept,
    ChangeOwner { package_id: i32, new_owner: i32 },
    Delete,
    Reply(ApiReply<E>),
    Stay,
}

pub open spec fn answer_wf(s: AnswerInvitation) -> bool {
    0 <= s.expiration_days
}

/// The request panics when the invitation's expiry cannot be represented.
pub open spec fn answer_panics<E>(s: AnswerInvitation, e: AnswerEvent<E>) -> bool {
    &&& s.phase == AnswerPhase::AwaitInvitation
    &&& e matches AnswerEvent::Invitation(Ok(inv))
    &&& !expiry_defined(inv.created_at, s.expiration_days)
}

pub open spec fn answer_next<E>(s: AnswerInvitation, e: AnswerEvent<E>) -> (AnswerInvitation, AnswerAction<E>) {
    let done = AnswerInvitation { phase: AnswerPhase::Finished, ..s };
    let success = AnswerAction::Reply(ApiReply::Json { ok: true, msg: ApiMessage::SuccessfullyAddedCollaborator });
    match (s.phase, e) {
        (AnswerPhase::Finished, _) => (s, AnswerAction::Stay),
        (_, AnswerEvent::ServerFailure(x)) => (done, AnswerAction::Reply(ApiReply::ServerError(x))),
        (AnswerPhase::AwaitAuthentication, AnswerEvent::Authenticated(r)) => match r {
            Err(x) => (done, AnswerAction::Reply(ApiReply::Propagate(x))),
            Ok(false) => (done, AnswerAction::Reply(ApiReply::ClearCookie)),
            Ok(true) => (AnswerInvitation { phase: AnswerPhase::AwaitUser, ..s }, AnswerAction::GetUser),
        },
        (AnswerPhase::AwaitUser, AnswerEvent::User(uid)) => (
            AnswerInvitation { phase: AnswerPhase::AwaitInvitation, ..s },
            AnswerAction::FindInvitation { invited_user_id: uid, package_id: s.response.package_id },
        ),
        (AnswerPhase::AwaitInvitation, AnswerEvent::Invitation(r)) => match r {
            Err(x) => (done, AnswerAction::Reply(ApiReply::NotFound(ApiMessage::InvitationNotFound, Some(x)))),
            Ok(inv) => if has_expired(inv.created_at, s.expiration_days, s.now) {
                (
                    AnswerInvitation { invitation: inv, ..done },
                    AnswerAction::Reply(ApiReply::BadRequest(ApiMessage::InvitationExpired, None)),
                )
            } else if s.response.accepted {
                (
                    AnswerInvitation {
                        phase: AnswerPhase::AwaitAccept,
                        invitation: inv,
                        checked_unexpired: true,
                        ..s
                    },
                    AnswerAction::Accept,
                )
            } else {
                (
                    AnswerInvitation {
                        phase: AnswerPhase::AwaitDelete,
                        invitation: inv,
                        checked_unexpired: true,
                        ..s
                    },
                    AnswerAction::Delete,
                )
            },
        },
        (AnswerPhase::AwaitAccept, AnswerEvent::Accepted(r)) => match r {
            Err(x) => (done, AnswerAction::Reply(ApiReply::Unauthorized(ApiMessage::UnexpectedError, Some(x)))),
            Ok(_) => if s.invitation.is_transferring {
                (
                    AnswerInvitation { phase: AnswerPhase::AwaitOwnerChange, ..s },
                    AnswerAction::ChangeOwner {
                        package_id: s.invitation.package_id,
                        new_owner: s.invitation.invited_user_id,
                    },
                )
            } else {
                (done, success)
            },
        },
        (AnswerPhase::AwaitOwnerChange, AnswerEvent::OwnerChanged(r)) => match r {
            Err(x) => (done, AnswerAction::Reply(ApiReply::Propagate(x))),
            Ok(_) => (done, success),
        },
        (AnswerPhase::AwaitDelete, AnswerEvent::Deleted(r)) => match r {
            Err(x) => (done, AnswerAction::Reply(ApiReply::Unauthorized(ApiMessage::UnexpectedError, Some(x)))),
            Ok(_) => (done, success),
        },
        _ => (s, AnswerAction::Stay),
    }
}

impl AnswerInvitation {
    /// Starts answering an invitation at time `now`; invitations stay valid
    /// for `expiration_days` days.
    pub fn new<E>(response: InvitationResponse, now: Timestamp, expiration_days: i64) -> (r: (
        AnswerInvitation,
        AnswerAction<E>,
    ))
        requires
            0 <= expiration_days,
        ensures
            r.0 == (AnswerInvitation {
                phase: AnswerPhase::AwaitAuthentication,
                response,
                now,
                expiration_days,
                invitation: InvitationRecord {
                    invited_user_id: 0,
                    package_id: 0,
                    is_transferring: false,
                    created_at: Timestamp { secs: 0, nanos: 0 },
                },
                checked_unexpired: false,
            }),
            answer_wf(r.0),
            answer_checked(r.0),
            r.1 is CheckAuthentication,
    {
        (
            AnswerInvitation {
                phase: AnswerPhase::AwaitAuthentication,
                response,
                now,
                expiration_days,
                invitation: InvitationRecord {
                    invited_user_id: 0,
                    package_id: 0,
                    is_transferring: false,
                    created_at: Timestamp { secs: 0, nanos: 0 },
                },
                checked_unexpired: false,
            },
            AnswerAction::CheckAuthentication,
        )
    }

    /// The next state and action after `event`.
    pub fn step<E>(self, event: AnswerEvent<E>) -> (r: (AnswerInvitation, AnswerAction<E>))
        requires
            answer_wf(self),
            !answer_panics(self, event),
        ensures
            r == answer_next(self, event),
            answer_wf(r.0),
    {
        let done = AnswerInvitation { phase: AnswerPhase::Finished, ..self };
        if self.phase == AnswerPhase::Finished {
            return (self, AnswerAction::Stay);
        }
        match event {
            AnswerEvent::ServerFailure(x) => (done, AnswerAction::Reply(ApiReply::ServerError(x))),
            AnswerEvent::Authenticated(r) => {
                if self.phase != AnswerPhase::AwaitAuthentication {
                    return (self, AnswerAction::Stay);
                }
                match r {
                    Err(x) => (done, AnswerAction::Reply(ApiReply::Propagate(x))),
                    Ok(false) => (done, AnswerAction::Reply(ApiReply::ClearCookie)),
                    Ok(true) => (AnswerInvitation { phase: AnswerPhase::AwaitUser, ..self }, AnswerAction::GetUser),
                }
            },
            AnswerEvent::User(uid) => {
                if self.phase != AnswerPhase::AwaitUser {
                    return (self, AnswerAction::Stay);
                }
                (
                    AnswerInvitation { phase: AnswerPhase::AwaitInvitation, ..self },
                    AnswerAction::FindInvitation { invited_user_id: uid, package_id: self.response.package_id },
                )
            },
            AnswerEvent::Invitation(r) => {
                if self.phase != AnswerPhase::AwaitInvitation {
                    return (self, AnswerAction::Stay);
                }
                match r {
                    Err(x) => (
                        done,
                        AnswerAction::Reply(ApiReply::NotFound(ApiMessage::InvitationNotFound, Some(x))),
                    ),
                    Ok(inv) => if is_expired(inv.created_at, self.expiration_days, self.now) {
                        (
                            AnswerInvitation { invitation: inv, ..done },
                            AnswerAction::Reply(ApiReply::BadRequest(ApiMessage::InvitationExpired, None)),
                        )
                    } else if self.response.accepted {
                        (
                            AnswerInvitation {
                                phase: AnswerPhase::AwaitAccept,
                                invitation: inv,
                                checked_unexpired: true,
                                ..self
                            },
                            AnswerAction::Accept,
                        )
                    } else {
                        (
                            AnswerInvitation {
                                phase: AnswerPhase::AwaitDelete,
                                invitation: inv,
                                checked_unexpired: true,
                                ..self
                            },
                            AnswerAction::Delete,
                        )
                    },
                }
            },
            AnswerEvent::Accepted(r) => {
                if self.phase != AnswerPhase::AwaitAccept {
                    return (self, AnswerAction::Stay);
                }
                match r {
                    Err(x) => (
                        done,
                        AnswerAction::Reply(ApiReply::Unauthorized(ApiMessage::UnexpectedError, Some(x))),
                    ),
                    Ok(_) => if self.invitation.is_transferring {
                        (
                            AnswerInvitation { phase: AnswerPhase::AwaitOwnerChange, ..self },
                            AnswerAction::ChangeOwner {
                                package_id: self.invitation.package_id,
                                new_owner: self.invitation.invited_user_id,
                            },
                        )
                    } else {
                        (
                            done,
                            AnswerAction::Reply(
                                ApiReply::Json { ok: true, msg: ApiMessage::SuccessfullyAddedCollaborator },
                            ),
                        )
                    },
                }
            },
            AnswerEvent::OwnerChanged(r) => {
                if self.phase != AnswerPhase::AwaitOwnerChange {
                    return (self, AnswerAction::Stay);
                }
                match r {
                    Err(x) => (done, AnswerAction::Reply(ApiReply::Propagate(x))),
                    Ok(_) => (
                        done,
                        AnswerAction::Reply(
                            ApiReply::Json { ok: true, msg: ApiMessage::SuccessfullyAddedCollaborator },
                        ),
                    ),
                }
            },
            AnswerEvent::Deleted(r) => {
                if self.phase != AnswerPhase::AwaitDelete {
                    return (self, AnswerAction::Stay);
                }
                match r {
                    Err(x) => (
                        done,
                        AnswerAction::Reply(ApiReply::Unauthorized(ApiMessage::UnexpectedError, Some(x))),
                    ),
                    Ok(_) => (
                        done,
                        AnswerAction::Reply(
                            ApiReply::Json { ok: true, msg: ApiMessage::SuccessfullyAddedCollaborator },
                        ),
                    ),
                }
            },
        }
    }
}

/// Once expired, an invitation stays expired.
pub proof fn law_expiry_is_final(created: Timestamp, days: i64, now: Timestamp, later: Timestamp)
    requires
        has_expired(created, days, now),
        not_later(now, later),
    ensures
        has_expired(created, days, later),
{
}

/// What an answer has established by its phase: past the lookup, the
/// invitation found had not expired when the request came in.
pub open spec fn answer_checked(s: AnswerInvitation) -> bool {
    (s.phase == AnswerPhase::AwaitAccept || s.phase == AnswerPhase::AwaitOwnerChange
        || s.phase == AnswerPhase::AwaitDelete) ==> s.checked_unexpired && !has_expired(
        s.invitation.created_at,
        s.expiration_days,
        s.now,
    )
}

/// An expired invitation is neither accepted nor declined: every step keeps
/// what the answer has checked; an invitation is accepted or deleted only
/// when it has not expired, accepted only when the user said yes and
/// deleted only when they said no; the owner changes only for a
/// transferring invitation, to the invited user, once it was accepted; an
/// expired invitation found is answered as expired.
pub proof fn law_only_valid_invitations_are_answered<E>(s: AnswerInvitation, e: AnswerEvent<E>)
    requires
        answer_checked(s),
    ensures
        answer_checked(answer_next(s, e).0),
        answer_next(s, e).1 is Accept ==> !has_expired(
            answer_next(s, e).0.invitation.created_at,
            s.expiration_days,
            s.now,
        ) && s.response.accepted,
        answer_next(s, e).1 is Delete ==> !has_expired(
            answer_next(s, e).0.invitation.created_at,
            s.expiration_days,
            s.now,
        ) && !s.response.accepted,
        answer_next(s, e).1 matches AnswerAction::ChangeOwner { package_id, new_owner } ==> s.phase
            == AnswerPhase::AwaitAccept && s.invitation.is_transferring && new_owner == s.invitation.invited_user_id
            && package_id == s.invitation.package_id,
        s.phase == AnswerPhase::AwaitInvitation ==> (e matches AnswerEvent::Invitation(Ok(inv)) ==> (has_expired(
            inv.created_at,
            s.expiration_days,
            s.now,
        ) ==> answer_next(s, e).1 == AnswerAction::<E>::Reply(
            ApiReply::BadRequest(ApiMessage::InvitationExpired, None),
        ))),
{
}

/// A finished answer ignores whatever else happens.
pub proof fn law_answer_finished_is_final<E>(s: AnswerInvitation, e: AnswerEvent<E>)
    requires
        s.phase == AnswerPhase::Finished,
    ensures
        answer_next(s, e).0 == s,
        answer_next(s, e).1 is Stay,
{
}

// ------------------------------------------------------------ accepting

/// One change made when an invitation is accepted.
#[derive(Clone, Copy, Debug, PartialEq, Eq, Structural)]
pub enum AcceptStep {
    /// Give every collaborator row of the account this role.
    SetRole { account_id: i32, role: Role },
    /// Make the account a collaborator of the package, added by `created_by`.
    AddCollaborator { package_id: i32, account_id: i32, created_by: i32 },
    /// Delete the invitation.
    DeleteInvitation,
}

/// The changes that accept an invitation, in order, all in one
/// transaction: a transfer makes the inviter a collaborator and the invited
/// user the owner; any other invitation adds the invited user as a
/// collaborator. The invitation is deleted last.
pub open spec fn acceptance_steps(
    invited_user_id: i32,
    invited_by_user_id: i32,
    package_id: i32,
    is_transferring: bool,
) -> Seq<AcceptStep> {
    if is_transferring {
        seq![
            AcceptStep::SetRole { account_id: invited_by_user_id, role: Role::Collaborator },
            AcceptStep::SetRole { account_id: invited_user_id, role: Role::Owner },
            AcceptStep::DeleteInvitation,
        ]
    } else {
        seq![
            AcceptStep::AddCollaborator { package_id, account_id: invited_user_id, created_by: invited_by_user_id },
            AcceptStep::DeleteInvitation,
        ]
    }
}

pub fn acceptance_plan(
    invited_user_id: i32,
    invited_by_user_id: i32,
    package_id: i32,
    is_transferring: bool,
) -> (r: Vec<AcceptStep>)
    ensures
        r@ == acceptance_steps(invited_user_id, invited_by_user_id, package_id, is_transferring),
{
    let mut steps: Vec<AcceptStep> = Vec::new();
    if is_transferring {
        steps.push(AcceptStep::SetRole { account_id: invited_by_user_id, role: Role::Collaborator });
        steps.push(AcceptStep::SetRole { account_id: invited_user_id, role: Role::Owner });
    } else {
        steps.push(
            AcceptStep::AddCollaborator { package_id, account_id: invited_user_id, created_by: invited_by_user_id },
        );
    }
    steps.push(AcceptStep::DeleteInvitation);
    assert(steps@ =~= acceptance_steps(invited_user_id, invited_by_user_id, package_id, is_transferring));
    steps
}

/// The answer to an invitation link followed by its invited user.
pub enum LinkAnswer {
    /// The invitation has expired: the page says the link is no longer
    /// valid.
    Gone,
    /// Accepting failed: the service is unavailable.
    Unavailable,
    /// Accepted: the browser goes to the package's page at this path.
    Redirect(String),
}

/// The answer to an invitation link, before accepting: an expired
/// invitation is refused (`Some(Gone)`); otherwise the invitation is to be
/// accepted (`None`).
pub fn link_before_accepting(created: Timestamp, days: i64, now: Timestamp) -> (r: Option<LinkAnswer>)
    requires
        expiry_defined(created, days),
    ensures
        has_expired(created, days, now) <==> r is Some,
        r matches Some(a) ==> a is Gone,
{
    if is_expired(created, days, now) {
        Some(LinkAnswer::Gone)
    } else {
        None
    }
}

/// The answer to an invitation link once it was accepted (or not), for the
/// package with this slug.
pub fn link_after_accepting(accepted: bool, slug: &str) -> (r: LinkAnswer)
    ensures
        !accepted ==> r is Unavailable,
        accepted ==> (r matches LinkAnswer::Redirect(path) && path@ == "/packages/"@ + slug@),
{
    if accepted {
        LinkAnswer::Redirect(concat_str("/packages/", slug))
    } else {
        LinkAnswer::Unavailable
    }
}

} // verus!
