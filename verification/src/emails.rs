//! The emails the site queues: an invitation to take over a package, a
//! contact request forwarded to the administrators, and the thanks sent to
//! whoever wrote. Each job knows its template, subject and links.

use vstd::prelude::*;
use crate::text::{concat_str, concat3};

verus! {

/// Invites `to` to become the owner of `package_name`.
#[derive(Debug)]
pub struct SendOwnershipTransferEmail {
    pub to: String,
    pub package_name: String,
    pub token: String,
}

pub open spec fn transfer_accept_url(domain: Seq<char>, token: Seq<char>) -> Seq<char> {
    domain + "/collaborators/accept/"@ + token
}

pub open spec fn transfer_subject(package_name: Seq<char>) -> Seq<char> {
    "You have been invited to be the owner of package "@ + package_name
}

impl SendOwnershipTransferEmail {
    pub fn template(&self) -> (r: &'static str)
        ensures
            r@ == "email/transfer-ownership"@,
    {
        "email/transfer-ownership"
    }

    /// The link that accepts the transfer, on the site at `domain`.
    pub fn accept_url(&self, domain: &str) -> (r: String)
        ensures
            r@ == transfer_accept_url(domain@, self.token@),
    {
        concat3(domain, "/collaborators/accept/", self.token.as_str())
    }

    pub fn subject(&self) -> (r: String)
        ensures
            r@ == transfer_subject(self.package_name@),
    {
        concat_str("You have been invited to be the owner of package ", self.package_name.as_str())
    }
}

/// Forwards a contact request to the administrators at `to`.
#[derive(Debug)]
pub struct SendContactRequestEmail {
    pub to: String,
    pub name: String,
    pub email: String,
    pub description: String,
    pub category: String,
}

/// The subject names the environment the request came from (empty when it
/// is not known).
pub open spec fn contact_request_subject(environment: Seq<char>) -> Seq<char> {
    "["@ + environment + "] New Contact Request"@
}

impl SendContactRequestEmail {
    pub fn template(&self) -> (r: &'static str)
        ensures
            r@ == "email/contact-request-to-Movey"@,
    {
        "email/contact-request-to-Movey"
    }

    pub fn subject(&self, environment: Option<&str>) -> (r: String)
        ensures
            r@ == contact_request_subject(
                match environment {
                    Some(e) => e@,
                    None => Seq::empty(),
                },
            ),
    {
        match environment {
            Some(e) => concat3("[", e, "] New Contact Request"),
            None => {
                proof {
                    reveal_strlit("[] New Contact Request");
                    reveal_strlit("[");
                    reveal_strlit("] New Contact Request");
                    assert("[] New Contact Request"@ =~= "["@ + Seq::<char>::empty() + "] New Contact Request"@);
                }
                String::from_str("[] New Contact Request")
            },
        }
    }
}

/// Thanks `to` for writing.
#[derive(Debug)]
pub struct SendContactEmail {
    pub to: String,
}

impl SendContactEmail {
    pub fn template(&self) -> (r: &'static str)
        ensures
            r@ == "email/contact-request"@,
    {
        "email/contact-request"
    }

    pub fn subject(&self) -> (r: &'static str)
        ensures
            r@ == "Thank you for contacting us"@,
    {
        "Thank you for contacting us"
    }
}

} // verus!
