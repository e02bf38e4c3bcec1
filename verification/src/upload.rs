//! The upload API: a request that publishes a package from its GitHub
//! repository with an API token, and a request that counts a download.
//! Both answer with a status and a text body.

use vstd::prelude::*;
use crate::repo::{GithubRepoData, GithubRepoDataView};
use crate::text::{chars_of, string_of, take_chars, concat3, concat_str, join_chars, join_with, decimal_string, decimal};
use crate::naming::{validate_name_and_version, expected_hints};

verus! {

#[derive(Clone, Copy, Debug, PartialEq, Eq, Structural)]
pub enum HttpStatus {
    Success,
    BadRequest,
    NotFound,
    InternalServerError,
}

/// An answer with a text body.
pub struct TextReply {
    pub status: HttpStatus,
    pub body: String,
}

pub struct TextReplyView {
    pub status: HttpStatus,
    pub body: Seq<char>,
}

impl View for TextReply {
    type V = TextReplyView;

    open spec fn view(&self) -> TextReplyView {
        TextReplyView { status: self.status, body: self.body@ }
    }
}

pub open spec fn server_trouble() -> Seq<char> {
    "Something went wrong, please try again later."@
}

pub open spec fn invalid_token() -> Seq<char> {
    "Invalid API token."@
}

pub open spec fn github_unreachable() -> Seq<char> {
    "Cannot get package info from Github."@
}

/// The sub-directory as sent, without one trailing newline.
pub open spec fn trimmed(s: Seq<char>) -> Seq<char> {
    if s.len() > 0 && s.last() == '\n' {
        s.drop_last()
    } else {
        s
    }
}

/// Where the manifest of an uploaded package is: in the sub-directory, or
/// at the top when there is none.
pub open spec fn upload_manifest(subdir: Seq<char>) -> Option<Seq<char>> {
    if subdir.len() == 0 {
        None
    } else {
        Some(subdir + "Move.toml"@)
    }
}

/// The url a package is published under: the repository's, or that of the
/// sub-directory at the revision read.
pub open spec fn published_url(url: Seq<char>, rev: Seq<char>, subdir: Seq<char>) -> Seq<char> {
    if subdir.len() == 0 {
        url
    } else {
        url + "/blob/"@ + rev + "/"@ + subdir
    }
}

/// The refusal of a package whose name or version is not acceptable.
pub open spec fn hints_message(hints: Seq<Seq<char>>) -> Seq<char> {
    "Cannot upload package.\nHints: "@ + join_with(hints, "; "@) + "."@
}

/// The refusal of a version that was published before.
pub open spec fn duplicate_message(domain: Seq<char>, name: Seq<char>) -> Seq<char> {
    "Cannot upload package.\nVersion already exists for package at "@ + domain + "/packages/"@ + name
        + ". Please commit your changes to Github and try again."@
}

/// The refusal when the store failed otherwise.
pub open spec fn store_failure_message() -> Seq<char> {
    "Cannot upload package.\nSomething went wrong, please try again later."@
}

/// `s` without one trailing newline.
pub fn trim_newline(s: &str) -> (r: String)
    ensures
        r@ == trimmed(s@),
{
    let v = chars_of(s);
    if v.len() > 0 && v[v.len() - 1] == '\n' {
        take_chars(s, v.len() - 1)
    } else {
        String::from_str(s)
    }
}

/// The manifest's path for a sub-directory.
pub fn upload_manifest_path(subdir: &str) -> (r: Option<String>)
    ensures
        r.deep_view() == upload_manifest(subdir@),
{
    if subdir.unicode_len() == 0 {
        None
    } else {
        Some(concat_str(subdir, "Move.toml"))
    }
}

/// The url a package is published under.
pub fn published_url_of(url: &str, rev: &str, subdir: &str) -> (r: String)
    ensures
        r@ == published_url(url@, rev@, subdir@),
{
    if subdir.unicode_len() == 0 {
        String::from_str(url)
    } else {
        let a = concat3(url, "/blob/", rev);
        concat3(a.as_str(), "/", subdir)
    }
}

/// The refusal text for hints.
pub fn hints_text(hints: &Vec<&'static str>) -> (r: String)
    ensures
        r@ == hints_message(hints@.map_values(|h: &str| h@)),
{
    let ghost views = hints@.map_values(|h: &str| h@);
    let mut pieces: Vec<Vec<char>> = Vec::new();
    let mut i: usize = 0;
    while i < hints.len()
        invariant
            i <= hints@.len(),
            views == hints@.map_values(|h: &str| h@),
            pieces@.map_values(|p: Vec<char>| p@) == views.take(i as int),
        decreases hints.len() - i,
    {
        let ghost before = pieces@.map_values(|p: Vec<char>| p@);
        pieces.push(chars_of(hints[i]));
        assert(pieces@.map_values(|p: Vec<char>| p@) =~= before.push(hints@[i as int]@));
        assert(views.take(i + 1) =~= views.take(i as int).push(hints@[i as int]@));
        i = i + 1;
    }
    assert(views.take(hints@.len() as int) =~= views);
    let sep = chars_of("; ");
    let joined = join_chars(&pieces, &sep);
    let joined_text = string_of(joined.as_slice());
    concat3("Cannot upload package.\nHints: ", joined_text.as_str(), ".")
}

/// The refusal text for a duplicate version.
pub fn duplicate_text(domain: &str, name: &str) -> (r: String)
    ensures
        r@ == duplicate_message(domain@, name@),
{
    let a = concat3("Cannot upload package.\nVersion already exists for package at ", domain, "/packages/");
    concat3(a.as_str(), name, ". Please commit your changes to Github and try again.")
}

#[derive(Clone, Copy, Debug, PartialEq, Eq, Structural)]
pub enum UploadPhase {
    AwaitPool,
    AwaitToken,
    AwaitTokenAccount,
    AwaitRepo,
    AwaitStore,
    Finished,
}

/// The state of an upload request.
pub struct RegisterPackage {
    pub phase: UploadPhase,
    /// The repository's url; for a package in a sub-directory it becomes the
    /// sub-directory's url once the revision is known.
    pub repo_url: String,
    pub subdir: String,
    pub total_files: i32,
    pub account_id: i32,
    pub package_name: String,
    /// The name and version read were found acceptable.
    pub validated: bool,
}

pub struct RegisterModel {
    pub phase: UploadPhase,
    pub repo_url: Seq<char>,
    pub subdir: Seq<char>,
    pub total_files: i32,
    pub account_id: i32,
    pub package_name: Seq<char>,
    pub validated: bool,
}

impl View for RegisterPackage {
    type V = RegisterModel;

    open spec fn view(&self) -> RegisterModel {
        RegisterModel {
            phase: self.phase,
            repo_url: self.repo_url@,
            subdir: self.subdir@,
            total_files: self.total_files,
            account_id: self.account_id,
            package_name: self.package_name@,
            validated: self.validated,
        }
    }
}

/// How storing the package ended.
pub enum StoreOutcome {
    Stored,
    /// The version exists already; `domain` is the site's address.
    UniqueViolation { domain: String },
    /// Another failure of the database.
    DatabaseFailure,
    /// A failure outside the database.
    OtherFailure,
}

pub enum StoreOutcomeView {
    Stored,
    UniqueViolation { domain: Seq<char> },
    DatabaseFailure,
    OtherFailure,
}

pub enum UploadEvent {
    /// Whether the database could be reached.
    Pool(bool),
    /// Whether the token exists.
    Token(bool),
    /// The account the token belongs to, when it can be found.
    TokenAccount(Option<i32>),
    /// The repository's data, when it could be read.
    Fetched(Option<GithubRepoData>),
    Stored(StoreOutcome),
}

pub enum UploadEventView {
    Pool(bool),
    Token(bool),
    TokenAccount(Option<i32>),
    Fetched(Option<GithubRepoDataView>),
    Stored(StoreOutcomeView),
}

impl View for UploadEvent {
    type V = UploadEventView;

    open spec fn view(&self) -> UploadEventView {
        match self {
            UploadEvent::Pool(b) => UploadEventView::Pool(*b),
            UploadEvent::Token(b) => UploadEventView::Token(*b),
            UploadEvent::TokenAccount(a) => UploadEventView::TokenAccount(*a),
            UploadEvent::Fetched(d) => UploadEventView::Fetched(
                match d {
                    Some(d) => Some(d@),
                    None => None,
                },
            ),
            UploadEvent::Stored(o) => UploadEventView::Stored(
                match o {
                    StoreOutcome::Stored => StoreOutcomeView::Stored,
                    StoreOutcome::UniqueViolation { domain } => StoreOutcomeView::UniqueViolation {
                        domain: domain@,
                    },
                    StoreOutcome::DatabaseFailure => StoreOutcomeView::DatabaseFailure,
                    StoreOutcome::OtherFailure => StoreOutcomeView::OtherFailure,
                },
            ),
        }
    }
}

pub enum UploadAction {
    GetPool,
    CheckToken,
    FindTokenAccount,
    /// Read the repository with its manifest at `path` (the top directory
    /// when `None`), at its latest revision.
    FetchRepo { url: String, path: Option<String> },
    /// Publish `data` for the account at `url`, with its description,
    /// revision and size and the given file count.
    Publish { url: String, total_files: i32, account_id: i32, data: GithubRepoData },
    Reply(TextReply),
    Stay,
}

pub enum UploadActionView {
    GetPool,
    CheckToken,
    FindTokenAccount,
    FetchRepo { url: Seq<char>, path: Option<Seq<char>> },
    Publish { url: Seq<char>, total_files: i32, account_id: i32, data: GithubRepoDataView },
    Reply(TextReplyView),
    Stay,
}

impl View for UploadAction {
    type V = UploadActionView;

    open spec fn view(&self) -> UploadActionView {
        match self {
            UploadAction::GetPool => UploadActionView::GetPool,
            UploadAction::CheckToken => UploadActionView::CheckToken,
            UploadAction::FindTokenAccount => UploadActionView::FindTokenAccount,
            UploadAction::FetchRepo { url, path } => UploadActionView::FetchRepo {
                url: url@,
                path: path.deep_view(),
            },
            UploadAction::Publish { url, total_files, account_id, data } => UploadActionView::Publish {
                url: url@,
                total_files: *total_files,
                account_id: *account_id,
                data: data@,
            },
            UploadAction::Reply(r) => UploadActionView::Reply(r@),
            UploadAction::Stay => UploadActionView::Stay,
        }
    }
}

pub open spec fn text_reply(status: HttpStatus, body: Seq<char>) -> UploadActionView {
    UploadActionView::Reply(TextReplyView { status, body })
}

pub open spec fn upload_next(m: RegisterModel, e: UploadEventView) -> (RegisterModel, UploadActionView) {
    let done = RegisterModel { phase: UploadPhase::Finished, ..m };
    match (m.phase, e) {
        (UploadPhase::AwaitPool, UploadEventView::Pool(ok)) => if ok {
            (RegisterModel { phase: UploadPhase::AwaitToken, ..m }, UploadActionView::CheckToken)
        } else {
            (done, text_reply(HttpStatus::InternalServerError, server_trouble()))
        },
        (UploadPhase::AwaitToken, UploadEventView::Token(ok)) => if ok {
            (RegisterModel { phase: UploadPhase::AwaitTokenAccount, ..m }, UploadActionView::FindTokenAccount)
        } else {
            (done, text_reply(HttpStatus::BadRequest, invalid_token()))
        },
        (UploadPhase::AwaitTokenAccount, UploadEventView::TokenAccount(a)) => match a {
            Some(id) => (
                RegisterModel { phase: UploadPhase::AwaitRepo, account_id: id, ..m },
                UploadActionView::FetchRepo { url: m.repo_url, path: upload_manifest(m.subdir) },
            ),
            None => (done, text_reply(HttpStatus::BadRequest, invalid_token())),
        },
        (UploadPhase::AwaitRepo, UploadEventView::Fetched(d)) => match d {
            None => (done, text_reply(HttpStatus::NotFound, github_unreachable())),
            Some(data) => {
                let url = published_url(m.repo_url, data.rev, m.subdir);
                let hints = expected_hints(data.name, data.version);
                if hints.len() > 0 {
                    (
                        RegisterModel { repo_url: url, ..done },
                        text_reply(HttpStatus::BadRequest, hints_message(hints)),
                    )
                } else {
                    (
                        RegisterModel {
                            phase: UploadPhase::AwaitStore,
                            repo_url: url,
                            package_name: data.name,
                            validated: true,
                            ..m
                        },
                        UploadActionView::Publish {
                            url,
                            total_files: m.total_files,
                            account_id: m.account_id,
                            data,
                        },
                    )
                }
            },
        },
        (UploadPhase::AwaitStore, UploadEventView::Stored(o)) => match o {
            StoreOutcomeView::UniqueViolation { domain } => (
                done,
                text_reply(HttpStatus::BadRequest, duplicate_message(domain, m.package_name)),
            ),
            StoreOutcomeView::DatabaseFailure => (done, text_reply(HttpStatus::BadRequest, store_failure_message())),
            _ => (done, text_reply(HttpStatus::Success, m.package_name)),
        },
        _ => (m, UploadActionView::Stay),
    }
}

fn reply(status: HttpStatus, body: String) -> (r: UploadAction)
    ensures
        r@ == text_reply(status, body@),
{
    UploadAction::Reply(TextReply { status, body })
}

impl RegisterPackage {
    /// Starts an upload of the repository at `repo_url`, in sub-directory
    /// `subdir` (empty for the top), counting `total_files` files.
    pub fn new(repo_url: &str, subdir: &str, total_files: i32) -> (r: (RegisterPackage, UploadAction))
        ensures
            r.0@ == (RegisterModel {
                phase: UploadPhase::AwaitPool,
                repo_url: repo_url@,
                subdir: trimmed(subdir@),
                total_files,
                account_id: 0,
                package_name: Seq::empty(),
                validated: false,
            }),
            r.1@ == UploadActionView::GetPool,
    {
        (
            RegisterPackage {
                phase: UploadPhase::AwaitPool,
                repo_url: String::from_str(repo_url),
                subdir: trim_newline(subdir),
                total_files,
                account_id: 0,
                package_name: String::new(),
                validated: false,
            },
            UploadAction::GetPool,
        )
    }

    /// The next state and action after `event`.
    pub fn step(self, event: UploadEvent) -> (r: (RegisterPackage, UploadAction))
        ensures
            (r.0@, r.1@) == upload_next(self@, event@),
    {
        let ghost m = self@;
        match event {
            UploadEvent::Pool(ok) => {
                if self.phase != UploadPhase::AwaitPool {
                    return (self, UploadAction::Stay);
                }
                if ok {
                    (RegisterPackage { phase: UploadPhase::AwaitToken, ..self }, UploadAction::CheckToken)
                } else {
                    let msg = String::from_str("Something went wrong, please try again later.");
                    (
                        RegisterPackage { phase: UploadPhase::Finished, ..self },
                        reply(HttpStatus::InternalServerError, msg),
                    )
                }
            },
            UploadEvent::Token(ok) => {
                if self.phase != UploadPhase::AwaitToken {
                    return (self, UploadAction::Stay);
                }
                if ok {
                    (
                        RegisterPackage { phase: UploadPhase::AwaitTokenAccount, ..self },
                        UploadAction::FindTokenAccount,
                    )
                } else {
                    let msg = String::from_str("Invalid API token.");
                    (RegisterPackage { phase: UploadPhase::Finished, ..self }, reply(HttpStatus::BadRequest, msg))
                }
            },
            UploadEvent::TokenAccount(a) => {
                if self.phase != UploadPhase::AwaitTokenAccount {
                    return (self, UploadAction::Stay);
                }
                match a {
                    Some(id) => {
                        let url = self.repo_url.clone();
                        let path = upload_manifest_path(self.subdir.as_str());
                        (
                            RegisterPackage { phase: UploadPhase::AwaitRepo, account_id: id, ..self },
                            UploadAction::FetchRepo { url, path },
                        )
                    },
                    None => {
                        let msg = String::from_str("Invalid API token.");
                        (
                            RegisterPackage { phase: UploadPhase::Finished, ..self },
                            reply(HttpStatus::BadRequest, msg),
                        )
                    },
                }
            },
            UploadEvent::Fetched(d) => {
                if self.phase != UploadPhase::AwaitRepo {
                    return (self, UploadAction::Stay);
                }
                match d {
                    None => {
                        let msg = String::from_str("Cannot get package info from Github.");
                        (RegisterPackage { phase: UploadPhase::Finished, ..self }, reply(HttpStatus::NotFound, msg))
                    },
                    Some(data) => {
                        let url = published_url_of(self.repo_url.as_str(), data.rev.as_str(), self.subdir.as_str());
                        let hints = validate_name_and_version(data.name.as_str(), data.version.as_str());
                        if hints.len() > 0 {
                            let msg = hints_text(&hints);
                            (
                                RegisterPackage { phase: UploadPhase::Finished, repo_url: url, ..self },
                                reply(HttpStatus::BadRequest, msg),
                            )
                        } else {
                            proof {
                                assert(hints@.map_values(|h: &str| h@).len() == 0);
                            }
                            let name = data.name.clone();
                            let publish_url = url.clone();
                            (
                                RegisterPackage {
                                    phase: UploadPhase::AwaitStore,
                                    repo_url: url,
                                    package_name: name,
                                    validated: true,
                                    ..self
                                },
                                UploadAction::Publish {
                                    url: publish_url,
                                    total_files: self.total_files,
                                    account_id: self.account_id,
                                    data,
                                },
                            )
                        }
                    },
                }
            },
            UploadEvent::Stored(o) => {
                if self.phase != UploadPhase::AwaitStore {
                    return (self, UploadAction::Stay);
                }
                match o {
                    StoreOutcome::UniqueViolation { domain } => {
                        let msg = duplicate_text(domain.as_str(), self.package_name.as_str());
                        (RegisterPackage { phase: UploadPhase::Finished, ..self }, reply(HttpStatus::BadRequest, msg))
                    },
                    StoreOutcome::DatabaseFailure => {
                        let msg = String::from_str("Cannot upload package.\nSomething went wrong, please try again later.");
                        (RegisterPackage { phase: UploadPhase::Finished, ..self }, reply(HttpStatus::BadRequest, msg))
                    },
                    _ => {
                        let msg = self.package_name.clone();
                        (RegisterPackage { phase: UploadPhase::Finished, ..self }, reply(HttpStatus::Success, msg))
                    },
                }
            },
        }
    }
}

/// An upload publishes only with a token that belongs to an account, and
/// only a package whose name and version are acceptable, at the url of its
/// sub-directory at the revision read; the repository is read only once
/// the token's account is known.
pub proof fn law_upload_publishes_only_valid_packages(m: RegisterModel, e: UploadEventView)
    ensures
        upload_next(m, e).1 matches UploadActionView::Publish { url, total_files, account_id, data } ==> m.phase
            == UploadPhase::AwaitRepo && expected_hints(data.name, data.version).len() == 0 && url == published_url(
            m.repo_url,
            data.rev,
            m.subdir,
        ) && account_id == m.account_id && total_files == m.total_files,
        upload_next(m, e).1 is FetchRepo ==> m.phase == UploadPhase::AwaitTokenAccount && (e matches UploadEventView::TokenAccount(
            Some(id),
        ) && upload_next(m, e).0.account_id == id),
{
}

/// A finished upload ignores whatever else happens.
pub proof fn law_upload_finished_is_final(m: RegisterModel, e: UploadEventView)
    requires
        m.phase == UploadPhase::Finished,
    ensures
        upload_next(m, e).0 == m,
        upload_next(m, e).1 is Stay,
{
}

// ------------------------------------------------------------ download count

/// A download is counted only for a url and a revision that are not empty.
pub open spec fn download_info_valid(url: Seq<char>, rev: Seq<char>) -> bool {
    url.len() > 0 && rev.len() > 0
}

/// The answer to a download count request: the refusal of empty git
/// information, the failure to reach the database, or the outcome of the
/// count (the rows changed, or a failure).
pub open spec fn download_answer(
    url: Seq<char>,
    rev: Seq<char>,
    pool_ok: bool,
    counted: Option<nat>,
) -> TextReplyView {
    if !download_info_valid(url, rev) {
        TextReplyView { status: HttpStatus::BadRequest, body: "Invalid git info."@ }
    } else if !pool_ok {
        TextReplyView { status: HttpStatus::InternalServerError, body: server_trouble() }
    } else {
        match counted {
            Some(n) => TextReplyView { status: HttpStatus::Success, body: decimal(n) },
            None => TextReplyView { status: HttpStatus::NotFound, body: "Cannot find url or rev."@ },
        }
    }
}

/// Whether a download's git information can be counted.
pub fn is_download_info_valid(url: &str, rev: &str) -> (b: bool)
    ensures
        b == download_info_valid(url@, rev@),
{
    url.unicode_len() > 0 && rev.unicode_len() > 0
}

/// The answer to a download count request, given whether the database
/// could be reached and the count's outcome (`None` for a failure); the
/// last two are not looked at for invalid git information.
pub fn download_reply(url: &str, rev: &str, pool_ok: bool, counted: Option<u64>) -> (r: TextReply)
    ensures
        r@ == download_answer(
            url@,
            rev@,
            pool_ok,
            match counted {
                Some(n) => Some(n as nat),
                None => None,
            },
        ),
{
    if !is_download_info_valid(url, rev) {
        TextReply { status: HttpStatus::BadRequest, body: String::from_str("Invalid git info.") }
    } else if !pool_ok {
        TextReply {
            status: HttpStatus::InternalServerError,
            body: String::from_str("Something went wrong, please try again later."),
        }
    } else {
        match counted {
            Some(n) => TextReply { status: HttpStatus::Success, body: decimal_string(n) },
            None => TextReply { status: HttpStatus::NotFound, body: String::from_str("Cannot find url or rev.") },
        }
    }
}

} // verus!
