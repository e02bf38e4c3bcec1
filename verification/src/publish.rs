//! Publishing a package from the data fetched from its repository.
//!
//! The store is reached through the caller: `PublishFlow::step` takes what
//! the store answered and says what to do next. A package is looked up by
//! name and repository; a new one is inserted under a slug that grows a
//! random suffix on each collision; a version is only added by the package's
//! owner and never replaces an existing version.

use vstd::prelude::*;
use crate::naming::{package_slug, slugify_package_name, slug_with_suffix, suffix_of, suffix_chars};
use crate::repo::GithubRepoData;

verus! {

/// A stored package, as far as publishing needs it.
#[derive(Debug)]
pub struct PackageRecord {
    pub id: i32,
    pub slug: Option<String>,
}

pub struct PackageRecordView {
    pub id: i32,
    pub slug: Option<Seq<char>>,
}

impl PackageRecord {
    /// A copy of this record.
    pub fn copy(&self) -> (r: PackageRecord)
        ensures
            r == *self,
    {
        PackageRecord { id: self.id, slug: copy_optional_string(&self.slug) }
    }
}

/// A copy of an optional string.
pub fn copy_optional_string(s: &Option<String>) -> (r: Option<String>)
    ensures
        r == *s,
{
    match s {
        Some(x) => Some(x.clone()),
        None => None,
    }
}

impl View for PackageRecord {
    type V = PackageRecordView;

    open spec fn view(&self) -> PackageRecordView {
        PackageRecordView { id: self.id, slug: self.slug.deep_view() }
    }
}

/// What a publication stores: the package's name, description and
/// repository url, and its version's number, readme, revision, file count
/// and size.
pub struct PackageRelease {
    pub name: String,
    pub description: String,
    pub repository_url: String,
    pub version: String,
    pub readme_content: String,
    pub rev: String,
    pub total_files: i32,
    pub total_size: i32,
}

pub struct PackageReleaseView {
    pub name: Seq<char>,
    pub description: Seq<char>,
    pub repository_url: Seq<char>,
    pub version: Seq<char>,
    pub readme_content: Seq<char>,
    pub rev: Seq<char>,
    pub total_files: i32,
    pub total_size: i32,
}

impl View for PackageRelease {
    type V = PackageReleaseView;

    open spec fn view(&self) -> PackageReleaseView {
        PackageReleaseView {
            name: self.name@,
            description: self.description@,
            repository_url: self.repository_url@,
            version: self.version@,
            readme_content: self.readme_content@,
            rev: self.rev@,
            total_files: self.total_files,
            total_size: self.total_size,
        }
    }
}

/// Where a publication stands.
#[derive(Clone, Copy, Debug, PartialEq, Eq, Structural)]
pub enum PublishPhase {
    AwaitPackageLookup,
    AwaitCollaborators,
    AwaitInsert,
    AwaitSuffix,
    AwaitOwnerAdded,
    AwaitVersionLookup,
    AwaitVersionCreated,
    Finished,
}

/// The state of one publication.
pub struct PublishFlow {
    pub phase: PublishPhase,
    /// The account that publishes, if any (the crawler publishes with none).
    pub account: Option<i32>,
    /// The slug the next insertion uses.
    pub slug: String,
    /// How many suffixes have been drawn so far.
    pub retries: usize,
    /// How many suffixes may be drawn after the first collision.
    pub max_collisions: usize,
    /// The package found or inserted.
    pub package: Option<PackageRecord>,
    /// The package's owner, once known.
    pub owner: Option<i32>,
    /// What is stored.
    pub release: PackageRelease,
}

pub struct PublishModel {
    pub phase: PublishPhase,
    pub account: Option<i32>,
    pub slug: Seq<char>,
    pub retries: nat,
    pub max_collisions: nat,
    pub package: Option<PackageRecordView>,
    pub owner: Option<i32>,
    pub release: PackageReleaseView,
}

impl View for PublishFlow {
    type V = PublishModel;

    open spec fn view(&self) -> PublishModel {
        PublishModel {
            phase: self.phase,
            account: self.account,
            slug: self.slug@,
            retries: self.retries as nat,
            max_collisions: self.max_collisions as nat,
            package: match self.package {
                Some(p) => Some(p@),
                None => None,
            },
            owner: self.owner,
            release: self.release@,
        }
    }
}

/// Whether a version lookup found the version.
pub enum VersionLookup<E> {
    Found,
    NotFound,
    Failed(E),
}

/// What the store answered.
pub enum PublishEvent<E> {
    /// The package with this name and repository, if any.
    PackageLookup(Option<PackageRecord>),
    /// The package's collaborators' accounts, owner first.
    Collaborators(Vec<i32>),
    /// The inserted package, or `None` when the insertion failed.
    Inserted(Option<PackageRecord>),
    /// A fresh random number, which gives the next slug's suffix.
    Suffix(u64),
    OwnerAdded,
    VersionLookup(VersionLookup<E>),
    VersionCreated,
    /// A store operation failed.
    Failed(E),
}

pub enum PublishEventView<E> {
    PackageLookup(Option<PackageRecordView>),
    Collaborators(Seq<i32>),
    Inserted(Option<PackageRecordView>),
    Suffix(u64),
    OwnerAdded,
    VersionLookup(VersionLookup<E>),
    VersionCreated,
    Failed(E),
}

pub open spec fn record_option_view(r: Option<PackageRecord>) -> Option<PackageRecordView> {
    match r {
        Some(p) => Some(p@),
        None => None,
    }
}

impl<E> View for PublishEvent<E> {
    type V = PublishEventView<E>;

    open spec fn view(&self) -> PublishEventView<E> {
        match self {
            PublishEvent::PackageLookup(r) => PublishEventView::PackageLookup(record_option_view(*r)),
            PublishEvent::Collaborators(v) => PublishEventView::Collaborators(v@),
            PublishEvent::Inserted(r) => PublishEventView::Inserted(record_option_view(*r)),
            PublishEvent::Suffix(n) => PublishEventView::Suffix(*n),
            PublishEvent::OwnerAdded => PublishEventView::OwnerAdded,
            PublishEvent::VersionLookup(l) => PublishEventView::VersionLookup(*l),
            PublishEvent::VersionCreated => PublishEventView::VersionCreated,
            PublishEvent::Failed(e) => PublishEventView::Failed(*e),
        }
    }
}

/// Why a publication failed.
pub enum PublishError<E> {
    /// The version already exists (a unique violation on the package's slug).
    VersionExists(Option<String>),
    /// The publishing account does not own the package (a foreign key
    /// violation on the package's slug).
    NotOwner(Option<String>),
    /// Every slug tried collided.
    SlugsExhausted,
    /// A store operation failed.
    Store(E),
}

pub enum PublishErrorView<E> {
    VersionExists(Option<Seq<char>>),
    NotOwner(Option<Seq<char>>),
    SlugsExhausted,
    Store(E),
}

/// What to do next.
pub enum PublishAction<E> {
    /// Look up the package by its name and repository url.
    LookupPackage { name: String, repository_url: String },
    ListCollaborators { package_id: i32 },
    /// Insert the package with this name, description, repository url and
    /// slug, doing nothing on a slug conflict.
    InsertPackage { name: String, description: String, repository_url: String, slug: String },
    /// Draw a random number for a slug's suffix.
    DrawSuffix,
    /// Make the account the package's owner (role `Owner`), added by
    /// `created_by`.
    AddOwner { package_id: i32, account_id: i32, created_by: i32 },
    /// Look up this version of the package.
    LookupVersion { package_id: i32, version: String },
    /// Create this version of the package, with its readme, revision, file
    /// count, size and download count, and mark the package updated.
    CreateVersion {
        package_id: i32,
        version: String,
        readme_content: String,
        rev: String,
        total_files: i32,
        total_size: i32,
        downloads_count: i32,
    },
    /// The publication succeeded with this package.
    Done(PackageRecord),
    Fail(PublishError<E>),
    /// The event does not belong to this phase; nothing changes.
    Stay,
}

pub enum PublishActionView<E> {
    LookupPackage { name: Seq<char>, repository_url: Seq<char> },
    ListCollaborators { package_id: i32 },
    InsertPackage { name: Seq<char>, description: Seq<char>, repository_url: Seq<char>, slug: Seq<char> },
    DrawSuffix,
    AddOwner { package_id: i32, account_id: i32, created_by: i32 },
    LookupVersion { package_id: i32, version: Seq<char> },
    CreateVersion {
        package_id: i32,
        version: Seq<char>,
        readme_content: Seq<char>,
        rev: Seq<char>,
        total_files: i32,
        total_size: i32,
        downloads_count: i32,
    },
    Done(PackageRecordView),
    Fail(PublishErrorView<E>),
    Stay,
}

impl<E> View for PublishAction<E> {
    type V = PublishActionView<E>;

    open spec fn view(&self) -> PublishActionView<E> {
        match self {
            PublishAction::LookupPackage { name, repository_url } => PublishActionView::LookupPackage {
                name: name@,
                repository_url: repository_url@,
            },
            PublishAction::ListCollaborators { package_id } => PublishActionView::ListCollaborators {
                package_id: *package_id,
            },
            PublishAction::InsertPackage { name, description, repository_url, slug } => PublishActionView::InsertPackage {
                name: name@,
                description: description@,
                repository_url: repository_url@,
                slug: slug@,
            },
            PublishAction::DrawSuffix => PublishActionView::DrawSuffix,
            PublishAction::AddOwner { package_id, account_id, created_by } => PublishActionView::AddOwner {
                package_id: *package_id,
                account_id: *account_id,
                created_by: *created_by,
            },
            PublishAction::LookupVersion { package_id, version } => PublishActionView::LookupVersion {
                package_id: *package_id,
                version: version@,
            },
            PublishAction::CreateVersion {
                package_id,
                version,
                readme_content,
                rev,
                total_files,
                total_size,
                downloads_count,
            } => PublishActionView::CreateVersion {
                package_id: *package_id,
                version: version@,
                readme_content: readme_content@,
                rev: rev@,
                total_files: *total_files,
                total_size: *total_size,
                downloads_count: *downloads_count,
            },
            PublishAction::Done(p) => PublishActionView::Done(p@),
            PublishAction::Fail(e) => PublishActionView::Fail(
                match e {
                    PublishError::VersionExists(s) => PublishErrorView::VersionExists(s.deep_view()),
                    PublishError::NotOwner(s) => PublishErrorView::NotOwner(s.deep_view()),
                    PublishError::SlugsExhausted => PublishErrorView::SlugsExhausted,
                    PublishError::Store(x) => PublishErrorView::Store(*x),
                },
            ),
            PublishAction::Stay => PublishActionView::Stay,
        }
    }
}

/// The slug of the package found or inserted, if any.
pub open spec fn model_package_slug(m: PublishModel) -> Option<Seq<char>> {
    match m.package {
        Some(p) => p.slug,
        None => None,
    }
}

/// The lookup of the package by its name and repository url.
pub open spec fn lookup_of<E>(m: PublishModel) -> PublishActionView<E> {
    PublishActionView::LookupPackage { name: m.release.name, repository_url: m.release.repository_url }
}

/// The insertion of the package under the current slug.
pub open spec fn insert_of<E>(m: PublishModel) -> PublishActionView<E> {
    PublishActionView::InsertPackage {
        name: m.release.name,
        description: m.release.description,
        repository_url: m.release.repository_url,
        slug: m.slug,
    }
}

/// The lookup of the published version.
pub open spec fn version_lookup_of<E>(m: PublishModel) -> PublishActionView<E> {
    PublishActionView::LookupVersion { package_id: m.package->0.id, version: m.release.version }
}

/// The creation of the published version, with no downloads yet.
pub open spec fn version_of<E>(m: PublishModel) -> PublishActionView<E> {
    PublishActionView::CreateVersion {
        package_id: m.package->0.id,
        version: m.release.version,
        readme_content: m.release.readme_content,
        rev: m.release.rev,
        total_files: m.release.total_files,
        total_size: m.release.total_size,
        downloads_count: 0,
    }
}

/// Once the owner is known: a version may only be added by the owner.
pub open spec fn after_owner_known<E>(m: PublishModel, owner: Option<i32>) -> (
    PublishModel,
    PublishActionView<E>,
) {
    let m2 = PublishModel { owner, ..m };
    if owner == m.account {
        (
            PublishModel { phase: PublishPhase::AwaitVersionLookup, ..m2 },
            version_lookup_of(m),
        )
    } else {
        (
            PublishModel { phase: PublishPhase::Finished, ..m2 },
            PublishActionView::Fail(PublishErrorView::NotOwner(model_package_slug(m))),
        )
    }
}

/// The transitions of a publication.
pub open spec fn publish_next<E>(m: PublishModel, e: PublishEventView<E>) -> (
    PublishModel,
    PublishActionView<E>,
) {
    let finish = PublishModel { phase: PublishPhase::Finished, ..m };
    match (m.phase, e) {
        (PublishPhase::Finished, _) => (m, PublishActionView::Stay),
        (_, PublishEventView::Failed(x)) => (finish, PublishActionView::Fail(PublishErrorView::Store(x))),
        (PublishPhase::AwaitPackageLookup, PublishEventView::PackageLookup(Some(p))) => (
            PublishModel { phase: PublishPhase::AwaitCollaborators, package: Some(p), ..m },
            PublishActionView::ListCollaborators { package_id: p.id },
        ),
        (PublishPhase::AwaitPackageLookup, PublishEventView::PackageLookup(None)) => (
            PublishModel { phase: PublishPhase::AwaitInsert, ..m },
            insert_of(m),
        ),
        (PublishPhase::AwaitCollaborators, PublishEventView::Collaborators(ids)) => {
            if m.package is Some {
                after_owner_known(m, if ids.len() > 0 { Some(ids[0]) } else { None })
            } else {
                (m, PublishActionView::Stay)
            }
        },
        (PublishPhase::AwaitInsert, PublishEventView::Inserted(Some(p))) => {
            let m2 = PublishModel { package: Some(p), ..m };
            match m.account {
                Some(a) => (
                    PublishModel { phase: PublishPhase::AwaitOwnerAdded, ..m2 },
                    PublishActionView::AddOwner { package_id: p.id, account_id: a, created_by: a },
                ),
                None => after_owner_known(m2, None),
            }
        },
        (PublishPhase::AwaitInsert, PublishEventView::Inserted(None)) => {
            if m.retries < m.max_collisions {
                (PublishModel { phase: PublishPhase::AwaitSuffix, ..m }, PublishActionView::DrawSuffix)
            } else {
                (finish, PublishActionView::Fail(PublishErrorView::SlugsExhausted))
            }
        },
        (PublishPhase::AwaitSuffix, PublishEventView::Suffix(n)) => {
            let m2 = PublishModel {
                phase: PublishPhase::AwaitInsert,
                slug: m.slug + seq!['-'] + suffix_chars(n as nat),
                retries: m.retries + 1,
                ..m
            };
            (m2, insert_of(m2))
        },
        (PublishPhase::AwaitOwnerAdded, PublishEventView::OwnerAdded) => {
            if m.package is Some {
                after_owner_known(m, m.account)
            } else {
                (m, PublishActionView::Stay)
            }
        },
        (PublishPhase::AwaitVersionLookup, PublishEventView::VersionLookup(l)) => match l {
            VersionLookup::Found => (
                finish,
                PublishActionView::Fail(PublishErrorView::VersionExists(model_package_slug(m))),
            ),
            VersionLookup::NotFound => {
                if m.package is Some {
                    (
                        PublishModel { phase: PublishPhase::AwaitVersionCreated, ..m },
                        version_of(m),
                    )
                } else {
                    (m, PublishActionView::Stay)
                }
            },
            VersionLookup::Failed(x) => (finish, PublishActionView::Fail(PublishErrorView::Store(x))),
        },
        (PublishPhase::AwaitVersionCreated, PublishEventView::VersionCreated) => {
            if m.package is Some {
                (finish, PublishActionView::Done(m.package->0))
            } else {
                (m, PublishActionView::Stay)
            }
        },
        _ => (m, PublishActionView::Stay),
    }
}

/// The one transition on which a publication gives up with a panic: the
/// first insertion collides and no further slug may be tried.
pub open spec fn publish_panics<E>(m: PublishModel, e: PublishEventView<E>) -> bool {
    m.phase == PublishPhase::AwaitInsert && m.max_collisions == 0 && e matches PublishEventView::Inserted(
        None,
    )
}

/// The counters of a publication stay in range: suffixes are only drawn
/// while more may be drawn.
pub open spec fn publish_wf(m: PublishModel) -> bool {
    &&& m.retries <= m.max_collisions
    &&& m.phase == PublishPhase::AwaitSuffix ==> m.retries < m.max_collisions
}

impl PublishFlow {
    /// Starts publishing the package read from its repository (`data`) at
    /// `repo_url`, with `description`, revision `rev`, `total_files` files and
    /// size `total_size`, on behalf of `account` (none for the crawler),
    /// allowing `max_collisions` further slugs after a collision.
    pub fn new<E>(
        repo_url: &str,
        description: &str,
        rev: &str,
        total_files: i32,
        total_size: i32,
        account: Option<i32>,
        data: &GithubRepoData,
        max_collisions: usize,
    ) -> (r: (PublishFlow, PublishAction<E>))
        ensures
            r.0@ == (PublishModel {
                phase: PublishPhase::AwaitPackageLookup,
                account,
                slug: package_slug(data.name@),
                retries: 0,
                max_collisions: max_collisions as nat,
                package: None,
                owner: None,
                release: PackageReleaseView {
                    name: data.name@,
                    description: description@,
                    repository_url: repo_url@,
                    version: data.version@,
                    readme_content: data.readme_content@,
                    rev: rev@,
                    total_files,
                    total_size,
                },
            }),
            r.1@ == lookup_of::<E>(r.0@),
            publish_wf(r.0@),
            publish_checked(r.0@),
    {
        let slug = slugify_package_name(data.name.as_str());
        let release = PackageRelease {
            name: data.name.clone(),
            description: String::from_str(description),
            repository_url: String::from_str(repo_url),
            version: data.version.clone(),
            readme_content: data.readme_content.clone(),
            rev: String::from_str(rev),
            total_files,
            total_size,
        };
        let flow = PublishFlow {
            phase: PublishPhase::AwaitPackageLookup,
            account,
            slug,
            retries: 0,
            max_collisions,
            package: None,
            owner: None,
            release,
        };
        let action = flow.lookup_action();
        (flow, action)
    }

    fn lookup_action<E>(&self) -> (r: PublishAction<E>)
        ensures
            r@ == lookup_of::<E>(self@),
    {
        PublishAction::LookupPackage {
            name: self.release.name.clone(),
            repository_url: self.release.repository_url.clone(),
        }
    }

    fn insert_action<E>(&self) -> (r: PublishAction<E>)
        ensures
            r@ == insert_of::<E>(self@),
    {
        PublishAction::InsertPackage {
            name: self.release.name.clone(),
            description: self.release.description.clone(),
            repository_url: self.release.repository_url.clone(),
            slug: self.slug.clone(),
        }
    }

    fn version_lookup_action<E>(&self) -> (r: PublishAction<E>)
        requires
            self.package is Some,
        ensures
            r@ == version_lookup_of::<E>(self@),
    {
        PublishAction::LookupVersion {
            package_id: self.package.as_ref().unwrap().id,
            version: self.release.version.clone(),
        }
    }

    fn version_action<E>(&self) -> (r: PublishAction<E>)
        requires
            self.package is Some,
        ensures
            r@ == version_of::<E>(self@),
    {
        PublishAction::CreateVersion {
            package_id: self.package.as_ref().unwrap().id,
            version: self.release.version.clone(),
            readme_content: self.release.readme_content.clone(),
            rev: self.release.rev.clone(),
            total_files: self.release.total_files,
            total_size: self.release.total_size,
            downloads_count: 0,
        }
    }

    fn after_owner<E>(self, owner: Option<i32>) -> (r: (PublishFlow, PublishAction<E>))
        requires
            self.package is Some,
        ensures
            (r.0@, r.1@) == after_owner_known::<E>(self@, owner),
    {
        if owner == self.account {
            let action = self.version_lookup_action();
            (PublishFlow { phase: PublishPhase::AwaitVersionLookup, owner, ..self }, action)
        } else {
            let slug = copy_optional_string(&self.package.as_ref().unwrap().slug);
            (
                PublishFlow { phase: PublishPhase::Finished, owner, ..self },
                PublishAction::Fail(PublishError::NotOwner(slug)),
            )
        }
    }

    /// The next state and action after the store answered `event`.
    pub fn step<E>(self, event: PublishEvent<E>) -> (r: (PublishFlow, PublishAction<E>))
        requires
            publish_wf(self@),
            !publish_panics(self@, event@),
        ensures
            (r.0@, r.1@) == publish_next(self@, event@),
            publish_wf(r.0@),
    {
        if self.phase == PublishPhase::Finished {
            return (self, PublishAction::Stay);
        }
        match event {
            PublishEvent::Failed(x) => (
                PublishFlow { phase: PublishPhase::Finished, ..self },
                PublishAction::Fail(PublishError::Store(x)),
            ),
            PublishEvent::PackageLookup(found) => {
                if self.phase != PublishPhase::AwaitPackageLookup {
                    return (self, PublishAction::Stay);
                }
                match found {
                    Some(p) => {
                        let package_id = p.id;
                        (
                            PublishFlow {
                                phase: PublishPhase::AwaitCollaborators,
                                package: Some(p),
                                ..self
                            },
                            PublishAction::ListCollaborators { package_id },
                        )
                    },
                    None => {
                        let action = self.insert_action();
                        (PublishFlow { phase: PublishPhase::AwaitInsert, ..self }, action)
                    },
                }
            },
            PublishEvent::Collaborators(ids) => {
                if self.phase != PublishPhase::AwaitCollaborators || self.package.is_none() {
                    return (self, PublishAction::Stay);
                }
                let owner = if ids.len() > 0 {
                    Some(ids[0])
                } else {
                    None
                };
                self.after_owner(owner)
            },
            PublishEvent::Inserted(inserted) => {
                if self.phase != PublishPhase::AwaitInsert {
                    return (self, PublishAction::Stay);
                }
                match inserted {
                    Some(p) => {
                        let package_id = p.id;
                        let flow = PublishFlow { package: Some(p), ..self };
                        match flow.account {
                            Some(a) => (
                                PublishFlow { phase: PublishPhase::AwaitOwnerAdded, ..flow },
                                PublishAction::AddOwner { package_id, account_id: a, created_by: a },
                            ),
                            None => flow.after_owner(None),
                        }
                    },
                    None => {
                        if self.retries < self.max_collisions {
                            (
                                PublishFlow { phase: PublishPhase::AwaitSuffix, ..self },
                                PublishAction::DrawSuffix,
                            )
                        } else {
                            (
                                PublishFlow { phase: PublishPhase::Finished, ..self },
                                PublishAction::Fail(PublishError::SlugsExhausted),
                            )
                        }
                    },
                }
            },
            PublishEvent::Suffix(n) => {
                if self.phase != PublishPhase::AwaitSuffix {
                    return (self, PublishAction::Stay);
                }
                let sfx = suffix_of(n);
                let slug = slug_with_suffix(self.slug.as_str(), sfx.as_str());
                let next = PublishFlow {
                    phase: PublishPhase::AwaitInsert,
                    slug,
                    retries: self.retries + 1,
                    ..self
                };
                let action = next.insert_action();
                (next, action)
            },
            PublishEvent::OwnerAdded => {
                if self.phase != PublishPhase::AwaitOwnerAdded || self.package.is_none() {
                    return (self, PublishAction::Stay);
                }
                let owner = self.account;
                self.after_owner(owner)
            },
            PublishEvent::VersionLookup(l) => {
                if self.phase != PublishPhase::AwaitVersionLookup {
                    return (self, PublishAction::Stay);
                }
                match l {
                    VersionLookup::Found => {
                        let slug = match &self.package {
                            Some(p) => copy_optional_string(&p.slug),
                            None => None,
                        };
                        (
                            PublishFlow { phase: PublishPhase::Finished, ..self },
                            PublishAction::Fail(PublishError::VersionExists(slug)),
                        )
                    },
                    VersionLookup::NotFound => {
                        if self.package.is_none() {
                            return (self, PublishAction::Stay);
                        }
                        let action = self.version_action();
                        (PublishFlow { phase: PublishPhase::AwaitVersionCreated, ..self }, action)
                    },
                    VersionLookup::Failed(x) => (
                        PublishFlow { phase: PublishPhase::Finished, ..self },
                        PublishAction::Fail(PublishError::Store(x)),
                    ),
                }
            },
            PublishEvent::VersionCreated => {
                if self.phase != PublishPhase::AwaitVersionCreated || self.package.is_none() {
                    return (self, PublishAction::Stay);
                }
                let p = self.package.as_ref().unwrap().copy();
                (PublishFlow { phase: PublishPhase::Finished, ..self }, PublishAction::Done(p))
            },
        }
    }
}

/// What a publication has established by its phase: once versions are
/// looked at, the package is known and its owner is the publishing account.
pub open spec fn publish_checked(m: PublishModel) -> bool {
    (m.phase == PublishPhase::AwaitVersionLookup || m.phase == PublishPhase::AwaitVersionCreated)
        ==> m.package is Some && m.owner == m.account
}

/// Only the owner of a package adds versions to it: every step keeps what
/// the publication has checked and its counters in range; a version is
/// created only for the package found or inserted, whose owner is the
/// publishing account, only once it was found missing, and with the
/// release's number, readme, revision, counts and no downloads; a version
/// found is refused as existing; the release never changes; a package is
/// inserted with the release's name, description and url under the
/// current slug; each collision adds a hyphen and four letters or digits
/// to the slug; and no more slugs are tried than allowed.
pub proof fn law_only_owner_publishes_versions<E>(m: PublishModel, e: PublishEventView<E>)
    requires
        publish_checked(m),
        publish_wf(m),
        !publish_panics(m, e),
    ensures
        publish_checked(publish_next(m, e).0),
        publish_wf(publish_next(m, e).0),
        publish_next(m, e).0.retries <= m.max_collisions,
        publish_next(m, e).1 is CreateVersion ==> m.owner == m.account && m.package is Some
            && publish_next(m, e).1 == version_of::<E>(m) && m.phase == PublishPhase::AwaitVersionLookup
            && e matches PublishEventView::VersionLookup(VersionLookup::NotFound),
        publish_next(m, e).0.release == m.release,
        m.phase == PublishPhase::AwaitSuffix ==> (e matches PublishEventView::Suffix(n) ==> publish_next(m, e).0.slug
            == m.slug + seq!['-'] + suffix_chars(n as nat)),
        publish_next(m, e).1 is InsertPackage ==> publish_next(m, e).1 == insert_of::<E>(publish_next(m, e).0),
        m.phase == PublishPhase::AwaitVersionLookup ==> (e matches PublishEventView::VersionLookup(VersionLookup::Found)
            ==> publish_next(m, e).1 matches PublishActionView::Fail(PublishErrorView::VersionExists(_))),
{
}

/// A finished publication ignores whatever else happens.
pub proof fn law_publish_finished_is_final<E>(m: PublishModel, e: PublishEventView<E>)
    requires
        m.phase == PublishPhase::Finished,
    ensures
        publish_next(m, e).0 == m,
        publish_next(m, e).1 is Stay,
{
}

} // verus!
