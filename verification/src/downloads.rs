//! Counting a download of a package revision.
//!
//! A download names a repository url, a revision and an optional
//! sub-directory. The url is brought to its `https` form; an unknown package
//! or revision is first created from the repository ("shadow" package or
//! version); then both the revision's and the package's counters go up.

use vstd::prelude::*;
use crate::text::{
    replace_all, starts_with, ends_with, contains, occurs_at, straddles, replace_str, starts_with_str, ends_with_str,
    take_chars, concat_str, concat3, lemma_replace_absent, lemma_replace_concat, lemma_replace_whole,
};
use crate::repo::{GithubRepoData, GithubRepoDataView};
use crate::publish::VersionLookup;

verus! {

/// The `https` form of a repository url: an SSH url of GitHub
/// (`git@github.com:owner/repo.git`) has its colons turned into slashes,
/// `git@` into `https://` and every `.git` removed; then a trailing `.git`
/// is dropped.
pub open spec fn normalized_repo_url(u: Seq<char>) -> Seq<char> {
    let a = if starts_with(u, "git@github.com"@) {
        replace_all(
            replace_all(replace_all(u, ":"@, "/"@), "git@"@, "https://"@),
            ".git"@,
            Seq::empty(),
        )
    } else {
        u
    };
    if ends_with(a, ".git"@) {
        a.take(a.len() - 4)
    } else {
        a
    }
}

/// The `https` form of a repository url.
pub fn normalize_repo_url(url: &str) -> (r: String)
    ensures
        r@ == normalized_repo_url(url@),
{
    proof {
        reveal_strlit("git@github.com");
        reveal_strlit(":");
        reveal_strlit("/");
        reveal_strlit("git@");
        reveal_strlit("https://");
        reveal_strlit(".git");
        reveal_strlit("");
    }
    let mut https_url = String::from_str(url);
    if starts_with_str(url, "git@github.com") {
        let a = replace_str(url, ":", "/");
        let b = replace_str(a.as_str(), "git@", "https://");
        https_url = replace_str(b.as_str(), ".git", "");
        assert(""@ =~= Seq::<char>::empty());
    }
    assert(https_url@ == (if starts_with(url@, "git@github.com"@) {
        replace_all(
            replace_all(replace_all(url@, ":"@, "/"@), "git@"@, "https://"@),
            ".git"@,
            Seq::empty(),
        )
    } else {
        url@
    }));
    if ends_with_str(https_url.as_str(), ".git") {
        let n = https_url.unicode_len();
        https_url = take_chars(https_url.as_str(), n - 4);
    }
    https_url
}

/// The manifest path of a package in a sub-directory.
pub open spec fn manifest_in(subdir: Seq<char>) -> Seq<char> {
    subdir + "/Move.toml"@
}

/// The url of a package in a sub-directory of a repository at a revision.
pub open spec fn subdir_url(url: Seq<char>, rev: Seq<char>, subdir: Seq<char>) -> Seq<char> {
    url + "/blob/"@ + rev + "/"@ + subdir
}

pub fn manifest_path(subdir: &str) -> (r: String)
    ensures
        r@ == manifest_in(subdir@),
{
    concat_str(subdir, "/Move.toml")
}

pub fn url_of_subdir(url: &str, rev: &str, subdir: &str) -> (r: String)
    ensures
        r@ == subdir_url(url@, rev@, subdir@),
{
    let a = concat3(url, "/blob/", rev);
    concat3(a.as_str(), "/", subdir)
}

#[derive(Clone, Copy, Debug, PartialEq, Eq, Structural)]
pub enum DownloadPhase {
    AwaitPackage,
    AwaitVersion,
    AwaitRepoForVersion,
    AwaitVersionCreated,
    AwaitRepoForPackage,
    AwaitShadowPackage,
    AwaitVersionCount,
    AwaitPackageCount,
    Finished,
}

/// The state of one download count.
pub struct DownloadFlow {
    pub phase: DownloadPhase,
    /// The package's url, `https` form; for a new package in a sub-directory
    /// it becomes the sub-directory's url.
    pub url: String,
    pub rev: String,
    pub subdir: String,
    pub package_id: i32,
    /// Rows changed so far.
    pub rows: usize,
}

pub struct DownloadModel {
    pub phase: DownloadPhase,
    pub url: Seq<char>,
    pub rev: Seq<char>,
    pub subdir: Seq<char>,
    pub package_id: i32,
    pub rows: nat,
}

impl View for DownloadFlow {
    type V = DownloadModel;

    open spec fn view(&self) -> DownloadModel {
        DownloadModel {
            phase: self.phase,
            url: self.url@,
            rev: self.rev@,
            subdir: self.subdir@,
            package_id: self.package_id,
            rows: self.rows as nat,
        }
    }
}

/// Whether the package with a url exists.
pub enum PackageLookup<E> {
    Found(i32),
    NotFound,
    Failed(E),
}

pub enum DownloadEvent<E> {
    PackageLookup(PackageLookup<E>),
    VersionLookup(VersionLookup<E>),
    /// The repository's data, read at the requested place.
    Fetched(GithubRepoData),
    VersionCreated,
    /// The id of the package created from the repository.
    ShadowCreated(i32),
    /// Rows changed by an update.
    Updated(usize),
    Failed(E),
}

pub enum DownloadEventView<E> {
    PackageLookup(PackageLookup<E>),
    VersionLookup(VersionLookup<E>),
    Fetched(GithubRepoDataView),
    VersionCreated,
    ShadowCreated(i32),
    Updated(nat),
    Failed(E),
}

impl<E> View for DownloadEvent<E> {
    type V = DownloadEventView<E>;

    open spec fn view(&self) -> DownloadEventView<E> {
        match self {
            DownloadEvent::PackageLookup(l) => DownloadEventView::PackageLookup(*l),
            DownloadEvent::VersionLookup(l) => DownloadEventView::VersionLookup(*l),
            DownloadEvent::Fetched(d) => DownloadEventView::Fetched(d@),
            DownloadEvent::VersionCreated => DownloadEventView::VersionCreated,
            DownloadEvent::ShadowCreated(id) => DownloadEventView::ShadowCreated(*id),
            DownloadEvent::Updated(n) => DownloadEventView::Updated(*n as nat),
            DownloadEvent::Failed(e) => DownloadEventView::Failed(*e),
        }
    }
}

pub enum DownloadAction<E> {
    FindPackage { url: String },
    FindVersion { package_id: i32, rev: String },
    /// Read the repository at `url`: its manifest at `path` (the top
    /// directory when `None`) and at revision `rev` (the latest when `None`).
    FetchRepo { url: String, path: Option<String>, revision: Option<String> },
    /// Create the version `data.version` of the package, with the readme,
    /// the revision, the file count `total_files` (always `-1`: unknown)
    /// and the size.
    CreateVersion { package_id: i32, rev: String, data: GithubRepoData, total_files: i32 },
    /// Publish the repository without an account, at `url` and revision
    /// `rev`, with the file count `total_files` (always `-1`: unknown).
    CreateShadowPackage { url: String, rev: String, data: GithubRepoData, total_files: i32 },
    /// Add one download to the revision of the package.
    CountVersionDownload { package_id: i32, rev: String },
    /// Add one download to the package.
    CountPackageDownload { package_id: i32 },
    /// Done; the number of rows changed.
    Done(usize),
    Fail(E),
    Stay,
}

pub enum DownloadActionView<E> {
    FindPackage { url: Seq<char> },
    FindVersion { package_id: i32, rev: Seq<char> },
    FetchRepo { url: Seq<char>, path: Option<Seq<char>>, revision: Option<Seq<char>> },
    CreateVersion { package_id: i32, rev: Seq<char>, data: GithubRepoDataView, total_files: i32 },
    CreateShadowPackage { url: Seq<char>, rev: Seq<char>, data: GithubRepoDataView, total_files: i32 },
    CountVersionDownload { package_id: i32, rev: Seq<char> },
    CountPackageDownload { package_id: i32 },
    Done(nat),
    Fail(E),
    Stay,
}

impl<E> View for DownloadAction<E> {
    type V = DownloadActionView<E>;

    open spec fn view(&self) -> DownloadActionView<E> {
        match self {
            DownloadAction::FindPackage { url } => DownloadActionView::FindPackage { url: url@ },
            DownloadAction::FindVersion { package_id, rev } => DownloadActionView::FindVersion {
                package_id: *package_id,
                rev: rev@,
            },
            DownloadAction::FetchRepo { url, path, revision } => DownloadActionView::FetchRepo {
                url: url@,
                path: path.deep_view(),
                revision: revision.deep_view(),
            },
            DownloadAction::CreateVersion { package_id, rev, data, total_files } => DownloadActionView::CreateVersion {
                package_id: *package_id,
                rev: rev@,
                data: data@,
                total_files: *total_files,
            },
            DownloadAction::CreateShadowPackage { url, rev, data, total_files } => DownloadActionView::CreateShadowPackage {
                url: url@,
                rev: rev@,
                data: data@,
                total_files: *total_files,
            },
            DownloadAction::CountVersionDownload { package_id, rev } => DownloadActionView::CountVersionDownload {
                package_id: *package_id,
                rev: rev@,
            },
            DownloadAction::CountPackageDownload { package_id } => DownloadActionView::CountPackageDownload {
                package_id: *package_id,
            },
            DownloadAction::Done(n) => DownloadActionView::Done(*n as nat),
            DownloadAction::Fail(e) => DownloadActionView::Fail(*e),
            DownloadAction::Stay => DownloadActionView::Stay,
        }
    }
}

/// Where the repository is read for a missing package or revision: the
/// manifest of the sub-directory when there is one; the revision of the
/// download, except for a new package in the top directory, which is read at
/// its latest revision.
pub open spec fn fetch_for<E>(m: DownloadModel, for_version: bool) -> DownloadActionView<E> {
    if m.subdir.len() == 0 {
        DownloadActionView::FetchRepo {
            url: m.url,
            path: None,
            revision: if for_version { Some(m.rev) } else { None },
        }
    } else {
        DownloadActionView::FetchRepo {
            url: m.url,
            path: Some(manifest_in(m.subdir)),
            revision: Some(m.rev),
        }
    }
}

pub open spec fn download_next<E>(m: DownloadModel, e: DownloadEventView<E>) -> (
    DownloadModel,
    DownloadActionView<E>,
) {
    let finish = DownloadModel { phase: DownloadPhase::Finished, ..m };
    match (m.phase, e) {
        (DownloadPhase::Finished, _) => (m, DownloadActionView::Stay),
        (_, DownloadEventView::Failed(x)) => (finish, DownloadActionView::Fail(x)),
        (DownloadPhase::AwaitPackage, DownloadEventView::PackageLookup(l)) => match l {
            PackageLookup::Found(id) => (
                DownloadModel { phase: DownloadPhase::AwaitVersion, package_id: id, ..m },
                DownloadActionView::FindVersion { package_id: id, rev: m.rev },
            ),
            PackageLookup::NotFound => (
                DownloadModel { phase: DownloadPhase::AwaitRepoForPackage, ..m },
                fetch_for(m, false),
            ),
            PackageLookup::Failed(x) => (finish, DownloadActionView::Fail(x)),
        },
        (DownloadPhase::AwaitVersion, DownloadEventView::VersionLookup(l)) => match l {
            VersionLookup::Found => (
                DownloadModel { phase: DownloadPhase::AwaitVersionCount, ..m },
                DownloadActionView::CountVersionDownload { package_id: m.package_id, rev: m.rev },
            ),
            VersionLookup::NotFound => (
                DownloadModel { phase: DownloadPhase::AwaitRepoForVersion, ..m },
                fetch_for(m, true),
            ),
            VersionLookup::Failed(x) => (finish, DownloadActionView::Fail(x)),
        },
        (DownloadPhase::AwaitRepoForVersion, DownloadEventView::Fetched(d)) => (
            DownloadModel { phase: DownloadPhase::AwaitVersionCreated, ..m },
            DownloadActionView::CreateVersion { package_id: m.package_id, rev: m.rev, data: d, total_files: -1i32 },
        ),
        (DownloadPhase::AwaitRepoForPackage, DownloadEventView::Fetched(d)) => {
            let url = if m.subdir.len() == 0 {
                m.url
            } else {
                subdir_url(m.url, d.rev, m.subdir)
            };
            (
                DownloadModel { phase: DownloadPhase::AwaitShadowPackage, url, ..m },
                DownloadActionView::CreateShadowPackage { url, rev: m.rev, data: d, total_files: -1i32 },
            )
        },
        (DownloadPhase::AwaitVersionCreated, DownloadEventView::VersionCreated) => (
            DownloadModel { phase: DownloadPhase::AwaitVersionCount, ..m },
            DownloadActionView::CountVersionDownload { package_id: m.package_id, rev: m.rev },
        ),
        (DownloadPhase::AwaitShadowPackage, DownloadEventView::ShadowCreated(id)) => (
            DownloadModel { phase: DownloadPhase::AwaitVersionCount, package_id: id, ..m },
            DownloadActionView::CountVersionDownload { package_id: id, rev: m.rev },
        ),
        (DownloadPhase::AwaitVersionCount, DownloadEventView::Updated(n)) => (
            DownloadModel { phase: DownloadPhase::AwaitPackageCount, rows: n, ..m },
            DownloadActionView::CountPackageDownload { package_id: m.package_id },
        ),
        (DownloadPhase::AwaitPackageCount, DownloadEventView::Updated(n)) => (
            DownloadModel { phase: DownloadPhase::Finished, rows: m.rows + n, ..m },
            DownloadActionView::Done(m.rows + n),
        ),
        _ => (m, DownloadActionView::Stay),
    }
}

/// The rows changed overflow a `usize`: counting panics there.
pub open spec fn download_overflows<E>(m: DownloadModel, e: DownloadEventView<E>) -> bool {
    &&& m.phase == DownloadPhase::AwaitPackageCount
    &&& e matches DownloadEventView::Updated(n)
    &&& m.rows + n > usize::MAX
}

/// The state in which a download of revision `rev` of the package at `url`,
/// in sub-directory `subdir`, starts: the package is looked up by the
/// url's `https` form.
pub open spec fn download_start(url: Seq<char>, rev: Seq<char>, subdir: Seq<char>) -> DownloadModel {
    DownloadModel {
        phase: DownloadPhase::AwaitPackage,
        url: normalized_repo_url(url),
        rev,
        subdir,
        package_id: 0,
        rows: 0,
    }
}

impl DownloadFlow {
    /// Starts counting a download of revision `rev` of the package at `url`,
    /// in sub-directory `subdir` (empty for the top directory).
    pub fn new<E>(url: &str, rev: &str, subdir: &str) -> (r: (DownloadFlow, DownloadAction<E>))
        ensures
            r.0@ == download_start(url@, rev@, subdir@),
            r.1@ == (DownloadActionView::<E>::FindPackage { url: download_start(url@, rev@, subdir@).url }),
    {
        let https_url = normalize_repo_url(url);
        let find = https_url.clone();
        (
            DownloadFlow {
                phase: DownloadPhase::AwaitPackage,
                url: https_url,
                rev: String::from_str(rev),
                subdir: String::from_str(subdir),
                package_id: 0,
                rows: 0,
            },
            DownloadAction::FindPackage { url: find },
        )
    }

    fn fetch<E>(&self, for_version: bool) -> (r: DownloadAction<E>)
        ensures
            r@ == (fetch_for::<E>(self@, for_version)),
    {
        let url = self.url.clone();
        if self.subdir.unicode_len() == 0 {
            DownloadAction::FetchRepo {
                url,
                path: None,
                revision: if for_version {
                    Some(self.rev.clone())
                } else {
                    None
                },
            }
        } else {
            DownloadAction::FetchRepo {
                url,
                path: Some(manifest_path(self.subdir.as_str())),
                revision: Some(self.rev.clone()),
            }
        }
    }

    /// The next state and action after `event`.
    pub fn step<E>(self, event: DownloadEvent<E>) -> (r: (DownloadFlow, DownloadAction<E>))
        requires
            !download_overflows(self@, event@),
        ensures
            (r.0@, r.1@) == download_next(self@, event@),
    {
        if self.phase == DownloadPhase::Finished {
            return (self, DownloadAction::Stay);
        }
        match event {
            DownloadEvent::Failed(x) => (
                DownloadFlow { phase: DownloadPhase::Finished, ..self },
                DownloadAction::Fail(x),
            ),
            DownloadEvent::PackageLookup(l) => {
                if self.phase != DownloadPhase::AwaitPackage {
                    return (self, DownloadAction::Stay);
                }
                match l {
                    PackageLookup::Found(id) => {
                        let rev = self.rev.clone();
                        (
                            DownloadFlow { phase: DownloadPhase::AwaitVersion, package_id: id, ..self },
                            DownloadAction::FindVersion { package_id: id, rev },
                        )
                    },
                    PackageLookup::NotFound => {
                        let a = self.fetch(false);
                        (DownloadFlow { phase: DownloadPhase::AwaitRepoForPackage, ..self }, a)
                    },
                    PackageLookup::Failed(x) => (
                        DownloadFlow { phase: DownloadPhase::Finished, ..self },
                        DownloadAction::Fail(x),
                    ),
                }
            },
            DownloadEvent::VersionLookup(l) => {
                if self.phase != DownloadPhase::AwaitVersion {
                    return (self, DownloadAction::Stay);
                }
                match l {
                    VersionLookup::Found => {
                        let rev = self.rev.clone();
                        let package_id = self.package_id;
                        (
                            DownloadFlow { phase: DownloadPhase::AwaitVersionCount, ..self },
                            DownloadAction::CountVersionDownload { package_id, rev },
                        )
                    },
                    VersionLookup::NotFound => {
                        let a = self.fetch(true);
                        (DownloadFlow { phase: DownloadPhase::AwaitRepoForVersion, ..self }, a)
                    },
                    VersionLookup::Failed(x) => (
                        DownloadFlow { phase: DownloadPhase::Finished, ..self },
                        DownloadAction::Fail(x),
                    ),
                }
            },
            DownloadEvent::Fetched(d) => {
                if self.phase == DownloadPhase::AwaitRepoForVersion {
                    let rev = self.rev.clone();
                    let package_id = self.package_id;
                    (
                        DownloadFlow { phase: DownloadPhase::AwaitVersionCreated, ..self },
                        DownloadAction::CreateVersion { package_id, rev, data: d, total_files: -1i32 },
                    )
                } else if self.phase == DownloadPhase::AwaitRepoForPackage {
                    let url = if self.subdir.unicode_len() == 0 {
                        self.url.clone()
                    } else {
                        url_of_subdir(self.url.as_str(), d.rev.as_str(), self.subdir.as_str())
                    };
                    let action_url = url.clone();
                    let rev = self.rev.clone();
                    (
                        DownloadFlow { phase: DownloadPhase::AwaitShadowPackage, url, ..self },
                        DownloadAction::CreateShadowPackage { url: action_url, rev, data: d, total_files: -1i32 },
                    )
                } else {
                    (self, DownloadAction::Stay)
                }
            },
            DownloadEvent::VersionCreated => {
                if self.phase != DownloadPhase::AwaitVersionCreated {
                    return (self, DownloadAction::Stay);
                }
                let rev = self.rev.clone();
                let package_id = self.package_id;
                (
                    DownloadFlow { phase: DownloadPhase::AwaitVersionCount, ..self },
                    DownloadAction::CountVersionDownload { package_id, rev },
                )
            },
            DownloadEvent::ShadowCreated(id) => {
                if self.phase != DownloadPhase::AwaitShadowPackage {
                    return (self, DownloadAction::Stay);
                }
                let rev = self.rev.clone();
                (
                    DownloadFlow { phase: DownloadPhase::AwaitVersionCount, package_id: id, ..self },
                    DownloadAction::CountVersionDownload { package_id: id, rev },
                )
            },
            DownloadEvent::Updated(n) => {
                if self.phase == DownloadPhase::AwaitVersionCount {
                    let package_id = self.package_id;
                    (
                        DownloadFlow { phase: DownloadPhase::AwaitPackageCount, rows: n, ..self },
                        DownloadAction::CountPackageDownload { package_id },
                    )
                } else if self.phase == DownloadPhase::AwaitPackageCount {
                    let total = self.rows + n;
                    (
                        DownloadFlow { phase: DownloadPhase::Finished, rows: total, ..self },
                        DownloadAction::Done(total),
                    )
                } else {
                    (self, DownloadAction::Stay)
                }
            },
        }
    }
}

/// A download is counted for the revision asked: no step changes the
/// revision; each version count is for that revision; the package count
/// follows the version count, for the same package; and the rows reported
/// are those both counts changed.
pub proof fn law_download_counts_revision_then_package<E>(m: DownloadModel, e: DownloadEventView<E>)
    ensures
        download_next(m, e).0.rev == m.rev,
        download_next(m, e).1 matches DownloadActionView::CountVersionDownload { package_id: _, rev } ==> rev
            == m.rev,
        download_next(m, e).1 matches DownloadActionView::CountPackageDownload { package_id } ==> package_id
            == m.package_id && m.phase == DownloadPhase::AwaitVersionCount,
        download_next(m, e).1 matches DownloadActionView::Done(n) ==> m.phase == DownloadPhase::AwaitPackageCount
            && (e matches DownloadEventView::Updated(k) && n == m.rows + k),
{
}

/// A finished count ignores whatever else happens.
pub proof fn law_download_finished_is_final<E>(m: DownloadModel, e: DownloadEventView<E>)
    requires
        m.phase == DownloadPhase::Finished,
    ensures
        download_next(m, e).0 == m,
        download_next(m, e).1 is Stay,
{
}

// ---------------------------------------------------------- url forms

/// No occurrence of `pat` in `s` when one of the pattern's characters is
/// nowhere in `s`.
proof fn lemma_absent_char(s: Seq<char>, pat: Seq<char>, j: int)
    requires
        0 <= j < pat.len(),
        forall|i: int| 0 <= i < s.len() ==> s[i] != pat[j],
    ensures
        !contains(s, pat),
{
    assert forall|i: int| !occurs_at(s, pat, i) by {
        if occurs_at(s, pat, i) {
            assert(s.subrange(i, i + pat.len())[j] == s[i + j]);
        }
    }
}

/// Replacing `:` by `/` in an SSH url of GitHub.
proof fn lemma_ssh_colon(x: Seq<char>)
    requires
        !contains(x, ":"@),
    ensures
        replace_all("git@github.com:"@ + x + ".git"@, ":"@, "/"@) == "git@github.com/"@ + x + ".git"@,
{
    reveal_strlit("git@github.com:");
    reveal_strlit("git@github.com/");
    reveal_strlit("git@github.com");
    reveal_strlit(":");
    reveal_strlit("/");
    reveal_strlit(".git");
    let g = "git@github.com"@;
    let c = ":"@;
    let sl = "/"@;
    let p = "git@github.com:"@;
    let sfx = ".git"@;
    assert(p =~= g + c);
    lemma_absent_char(g, c, 0);
    lemma_replace_absent(g, c, sl);
    lemma_replace_whole(c, sl);
    assert(!straddles(g, c, c));
    lemma_replace_concat(g, c, c, sl);
    assert(g + sl =~= "git@github.com/"@);
    lemma_replace_absent(x, c, sl);
    assert(!straddles(p, x, c));
    lemma_replace_concat(p, x, c, sl);
    lemma_absent_char(sfx, c, 0);
    lemma_replace_absent(sfx, c, sl);
    assert(!straddles(p + x, sfx, c));
    lemma_replace_concat(p + x, sfx, c, sl);
}

/// Replacing `git@` by `https://` once the colon is a slash.
proof fn lemma_ssh_scheme(x: Seq<char>)
    requires
        !contains(x, "git@"@),
    ensures
        replace_all("git@github.com/"@ + x + ".git"@, "git@"@, "https://"@) == "https://github.com/"@ + x + ".git"@,
{
    reveal_strlit("git@github.com/");
    reveal_strlit("https://github.com/");
    reveal_strlit("github.com/");
    reveal_strlit("git@");
    reveal_strlit("https://");
    reveal_strlit(".git");
    let q = "git@github.com/"@;
    let ga = "git@"@;
    let h = "https://"@;
    let gh = "github.com/"@;
    let sfx = ".git"@;
    assert(q =~= ga + gh);
    assert forall|i: int| 0 <= i < ga.len() < i + ga.len() implies !#[trigger] occurs_at(ga + gh, ga, i) by {
        if occurs_at(ga + gh, ga, i) {
            assert((ga + gh).subrange(i, i + 4)[0] == (ga + gh)[i]);
        }
    }
    assert(!straddles(ga, gh, ga));
    lemma_replace_whole(ga, h);
    lemma_absent_char(gh, ga, 3);
    lemma_replace_absent(gh, ga, h);
    lemma_replace_concat(ga, gh, ga, h);
    assert(h + gh =~= "https://github.com/"@);
    assert forall|i: int| 0 <= i < q.len() < i + ga.len() implies !#[trigger] occurs_at(q + x, ga, i) by {
        if occurs_at(q + x, ga, i) {
            assert((q + x).subrange(i, i + 4)[0] == (q + x)[i]);
            assert((q + x)[i] == q[i]);
        }
    }
    assert(!straddles(q, x, ga));
    lemma_replace_absent(x, ga, h);
    lemma_replace_concat(q, x, ga, h);
    let l: int = (q.len() + x.len()) as int;
    assert forall|i: int| 0 <= i < l < i + ga.len() implies !#[trigger] occurs_at(q + x + sfx, ga, i) by {
        if occurs_at(q + x + sfx, ga, i) {
            assert((q + x + sfx).subrange(i, i + 4)[l - i] == (q + x + sfx)[l]);
            assert((q + x + sfx)[l] == sfx[0]);
        }
    }
    assert(!straddles(q + x, sfx, ga));
    lemma_absent_char(sfx, ga, 3);
    lemma_replace_absent(sfx, ga, h);
    lemma_replace_concat(q + x, sfx, ga, h);
}

/// Dropping `.git` from an https url of GitHub with a `.git` suffix.
proof fn lemma_https_suffix(x: Seq<char>)
    requires
        !contains(x, ".git"@),
    ensures
        replace_all("https://github.com/"@ + x + ".git"@, ".git"@, Seq::empty()) == "https://github.com/"@ + x,
{
    reveal_strlit("https://github.com/");
    reveal_strlit(".git");
    let r = "https://github.com/"@;
    let sfx = ".git"@;
    let e = Seq::<char>::empty();
    assert forall|i: int| !occurs_at(r, sfx, i) by {
        if occurs_at(r, sfx, i) {
            assert(r.subrange(i, i + 4)[0] == r[i]);
            assert(r.subrange(i, i + 4)[1] == r[i + 1]);
        }
    }
    lemma_replace_absent(r, sfx, e);
    lemma_replace_absent(x, sfx, e);
    assert forall|i: int| 0 <= i < r.len() < i + sfx.len() implies !#[trigger] occurs_at(r + x, sfx, i) by {
        if occurs_at(r + x, sfx, i) {
            assert((r + x).subrange(i, i + 4)[0] == (r + x)[i]);
            assert((r + x)[i] == r[i]);
        }
    }
    assert(!straddles(r, x, sfx));
    lemma_replace_concat(r, x, sfx, e);
    let l: int = (r.len() + x.len()) as int;
    assert forall|i: int| 0 <= i < l < i + sfx.len() implies !#[trigger] occurs_at(r + x + sfx, sfx, i) by {
        if occurs_at(r + x + sfx, sfx, i) {
            assert((r + x + sfx).subrange(i, i + 4)[l - i] == (r + x + sfx)[l]);
            assert((r + x + sfx)[l] == sfx[0]);
        }
    }
    assert(!straddles(r + x, sfx, sfx));
    lemma_replace_whole(sfx, e);
    lemma_replace_concat(r + x, sfx, sfx, e);
    assert(r + x + e =~= r + x);
}

/// An https url of GitHub without `.git` in its path does not end in `.git`.
proof fn lemma_no_git_suffix(x: Seq<char>)
    requires
        !contains(x, ".git"@),
    ensures
        !ends_with("https://github.com/"@ + x, ".git"@),
        !starts_with("https://github.com/"@ + x, "git@github.com"@),
        !starts_with("https://github.com/"@ + x + ".git"@, "git@github.com"@),
{
    reveal_strlit("https://github.com/");
    reveal_strlit(".git");
    reveal_strlit("git@github.com");
    let r = "https://github.com/"@;
    let sfx = ".git"@;
    let v = r + x;
    let n: int = v.len() as int;
    if ends_with(v, sfx) {
        assert(v.subrange(n - 4, n)[0] == v[n - 4]);
        if x.len() >= 4 {
            assert(x.subrange(x.len() - 4, x.len() as int) =~= v.subrange(n - 4, n));
            assert(occurs_at(x, sfx, x.len() - 4));
        } else {
            assert(v[n - 4] == r[n - 4]);
        }
    }
    assert(v.subrange(0, 14)[0] == v[0]);
    assert((v + sfx).subrange(0, 14)[0] == (v + sfx)[0]);
}

/// The SSH form, the https form with `.git` and the https form of a GitHub
/// repository's url are the same url once normalised, when the path holds
/// no `:`, `git@` or `.git`; so a download through any of them starts alike,
/// and against the same store takes the same actions and leaves the same
/// store.
pub proof fn law_repo_url_forms_agree<E>(
    x: Seq<char>,
    rev: Seq<char>,
    subdir: Seq<char>,
    s: DownloadStore,
    fetched: GithubRepoDataView,
)
    requires
        !contains(x, ":"@),
        !contains(x, "git@"@),
        !contains(x, ".git"@),
    ensures
        normalized_repo_url("git@github.com:"@ + x + ".git"@) == "https://github.com/"@ + x,
        normalized_repo_url("https://github.com/"@ + x + ".git"@) == "https://github.com/"@ + x,
        normalized_repo_url("https://github.com/"@ + x) == "https://github.com/"@ + x,
        download_start("git@github.com:"@ + x + ".git"@, rev, subdir) == download_start(
            "https://github.com/"@ + x,
            rev,
            subdir,
        ),
        download_start("https://github.com/"@ + x + ".git"@, rev, subdir) == download_start(
            "https://github.com/"@ + x,
            rev,
            subdir,
        ),
        download_against::<E>("git@github.com:"@ + x + ".git"@, rev, subdir, s, fetched) == download_against::<E>(
            "https://github.com/"@ + x,
            rev,
            subdir,
            s,
            fetched,
        ),
        download_against::<E>("https://github.com/"@ + x + ".git"@, rev, subdir, s, fetched)
            == download_against::<E>("https://github.com/"@ + x, rev, subdir, s, fetched),
{
    reveal_strlit("git@github.com:");
    reveal_strlit("git@github.com");
    reveal_strlit("https://github.com/");
    reveal_strlit(".git");
    let r = "https://github.com/"@;
    let sfx = ".git"@;
    let u1 = "git@github.com:"@ + x + sfx;
    assert(u1.subrange(0, 14) =~= "git@github.com"@);
    assert(starts_with(u1, "git@github.com"@));
    lemma_ssh_colon(x);
    lemma_ssh_scheme(x);
    lemma_https_suffix(x);
    lemma_no_git_suffix(x);
    let u2 = r + x + sfx;
    let n: int = u2.len() as int;
    assert(u2.subrange(n - 4, n) =~= sfx);
    assert(u2.take(n - 4) =~= r + x);
}

// ---------------------------------------------------------- runs against a store

/// What a database holds of the packages for counting downloads: each
/// package's id by its repository url, each package's download total, each
/// revision's download count by package id and revision, and the id the
/// next package gets.
pub struct DownloadStore {
    pub packages: Map<Seq<char>, i32>,
    pub package_counts: Map<i32, int>,
    pub version_counts: Map<(i32, Seq<char>), int>,
    pub next_id: i32,
}

/// Every id in the store was handed out before the next one, and one more
/// id can be handed out.
pub open spec fn store_wf(s: DownloadStore) -> bool {
    &&& s.next_id < i32::MAX
    &&& forall|u: Seq<char>| #[trigger] s.packages.contains_key(u) ==> s.packages[u] < s.next_id
    &&& forall|id: i32| #[trigger] s.package_counts.contains_key(id) ==> id < s.next_id
    &&& forall|k: (i32, Seq<char>)| #[trigger] s.version_counts.contains_key(k) ==> k.0 < s.next_id
}

/// How the store carries out an action of a download count and what it
/// answers: lookups by url and by package and revision; `fetched` is what
/// the repository holds; a new version starts at zero downloads; a new
/// package gets the next id, a zero total and its revision at zero
/// downloads; a count adds one to an existing row and reports the rows it
/// changed.
pub open spec fn store_answer<E>(s: DownloadStore, a: DownloadActionView<E>, fetched: GithubRepoDataView) -> (
    DownloadStore,
    DownloadEventView<E>,
) {
    match a {
        DownloadActionView::FindPackage { url } => (
            s,
            DownloadEventView::PackageLookup(
                if s.packages.contains_key(url) {
                    PackageLookup::Found(s.packages[url])
                } else {
                    PackageLookup::NotFound
                },
            ),
        ),
        DownloadActionView::FindVersion { package_id, rev } => (
            s,
            DownloadEventView::VersionLookup(
                if s.version_counts.contains_key((package_id, rev)) {
                    VersionLookup::Found
                } else {
                    VersionLookup::NotFound
                },
            ),
        ),
        DownloadActionView::FetchRepo { .. } => (s, DownloadEventView::Fetched(fetched)),
        DownloadActionView::CreateVersion { package_id, rev, .. } => (
            DownloadStore { version_counts: s.version_counts.insert((package_id, rev), 0), ..s },
            DownloadEventView::VersionCreated,
        ),
        DownloadActionView::CreateShadowPackage { url, rev, .. } => (
            DownloadStore {
                packages: s.packages.insert(url, s.next_id),
                package_counts: s.package_counts.insert(s.next_id, 0),
                version_counts: s.version_counts.insert((s.next_id, rev), 0),
                next_id: (s.next_id + 1) as i32,
            },
            DownloadEventView::ShadowCreated(s.next_id),
        ),
        DownloadActionView::CountVersionDownload { package_id, rev } => if s.version_counts.contains_key(
            (package_id, rev),
        ) {
            (
                DownloadStore {
                    version_counts: s.version_counts.insert(
                        (package_id, rev),
                        s.version_counts[(package_id, rev)] + 1,
                    ),
                    ..s
                },
                DownloadEventView::Updated(1),
            )
        } else {
            (s, DownloadEventView::Updated(0))
        },
        DownloadActionView::CountPackageDownload { package_id } => if s.package_counts.contains_key(package_id) {
            (
                DownloadStore {
                    package_counts: s.package_counts.insert(package_id, s.package_counts[package_id] + 1),
                    ..s
                },
                DownloadEventView::Updated(1),
            )
        } else {
            (s, DownloadEventView::Updated(0))
        },
        _ => (s, DownloadEventView::VersionCreated),
    }
}

/// The actions of a count run against the store, the last one included,
/// for at most `fuel` answers, and the store after them.
pub open spec fn download_run<E>(
    m: DownloadModel,
    a: DownloadActionView<E>,
    s: DownloadStore,
    fetched: GithubRepoDataView,
    fuel: nat,
) -> (Seq<DownloadActionView<E>>, DownloadStore)
    decreases fuel,
{
    if fuel == 0 || a is Done || a is Fail || a is Stay {
        (seq![a], s)
    } else {
        let (s2, e) = store_answer(s, a, fetched);
        let (m2, a2) = download_next(m, e);
        let (t, s3) = download_run(m2, a2, s2, fetched, (fuel - 1) as nat);
        (seq![a] + t, s3)
    }
}

/// A whole count, from its start, against the store.
pub open spec fn download_against<E>(
    url: Seq<char>,
    rev: Seq<char>,
    subdir: Seq<char>,
    s: DownloadStore,
    fetched: GithubRepoDataView,
) -> (Seq<DownloadActionView<E>>, DownloadStore) {
    let m = download_start(url, rev, subdir);
    download_run(m, DownloadActionView::FindPackage { url: m.url }, s, fetched, 8)
}

/// A download of a known revision of a known package reads nothing from the
/// repository: it adds one to the revision's count and one to the package's
/// total, and reports two rows changed.
pub proof fn law_known_revision_download<E>(
    url: Seq<char>,
    rev: Seq<char>,
    subdir: Seq<char>,
    s: DownloadStore,
    fetched: GithubRepoDataView,
)
    requires
        s.packages.contains_key(normalized_repo_url(url)),
        s.version_counts.contains_key((s.packages[normalized_repo_url(url)], rev)),
        s.package_counts.contains_key(s.packages[normalized_repo_url(url)]),
    ensures
        ({
            let u = normalized_repo_url(url);
            let id = s.packages[u];
            let (t, s2) = download_against::<E>(url, rev, subdir, s, fetched);
            &&& t == seq![
                DownloadActionView::<E>::FindPackage { url: u },
                DownloadActionView::FindVersion { package_id: id, rev },
                DownloadActionView::CountVersionDownload { package_id: id, rev },
                DownloadActionView::CountPackageDownload { package_id: id },
                DownloadActionView::Done(2),
            ]
            &&& s2 == DownloadStore {
                version_counts: s.version_counts.insert((id, rev), s.version_counts[(id, rev)] + 1),
                package_counts: s.package_counts.insert(id, s.package_counts[id] + 1),
                ..s
            }
        }),
{
    reveal_with_fuel(download_run, 6);
    let u = normalized_repo_url(url);
    let id = s.packages[u];
    let (t, s2) = download_against::<E>(url, rev, subdir, s, fetched);
    assert(t =~= seq![
        DownloadActionView::<E>::FindPackage { url: u },
        DownloadActionView::FindVersion { package_id: id, rev },
        DownloadActionView::CountVersionDownload { package_id: id, rev },
        DownloadActionView::CountPackageDownload { package_id: id },
        DownloadActionView::Done(2),
    ]);
}

/// A download of a package that the store does not hold, in the top
/// directory, reads the repository once, at its latest revision; the package
/// is created under the next id with the revision asked, and both counts
/// start at one; two rows are reported changed.
pub proof fn law_unknown_package_download<E>(
    url: Seq<char>,
    rev: Seq<char>,
    s: DownloadStore,
    fetched: GithubRepoDataView,
)
    requires
        store_wf(s),
        !s.packages.contains_key(normalized_repo_url(url)),
    ensures
        ({
            let u = normalized_repo_url(url);
            let id = s.next_id;
            let (t, s2) = download_against::<E>(url, rev, Seq::empty(), s, fetched);
            &&& t == seq![
                DownloadActionView::<E>::FindPackage { url: u },
                DownloadActionView::FetchRepo { url: u, path: None, revision: None },
                DownloadActionView::CreateShadowPackage { url: u, rev, data: fetched, total_files: -1i32 },
                DownloadActionView::CountVersionDownload { package_id: id, rev },
                DownloadActionView::CountPackageDownload { package_id: id },
                DownloadActionView::Done(2),
            ]
            &&& s2 == DownloadStore {
                packages: s.packages.insert(u, id),
                package_counts: s.package_counts.insert(id, 1),
                version_counts: s.version_counts.insert((id, rev), 1),
                next_id: (id + 1) as i32,
            }
        }),
{
    reveal_with_fuel(download_run, 7);
    let u = normalized_repo_url(url);
    let id = s.next_id;
    let (t, s2) = download_against::<E>(url, rev, Seq::empty(), s, fetched);
    assert(t =~= seq![
        DownloadActionView::<E>::FindPackage { url: u },
        DownloadActionView::FetchRepo { url: u, path: None, revision: None },
        DownloadActionView::CreateShadowPackage { url: u, rev, data: fetched, total_files: -1i32 },
        DownloadActionView::CountVersionDownload { package_id: id, rev },
        DownloadActionView::CountPackageDownload { package_id: id },
        DownloadActionView::Done(2),
    ]);
    assert(s2.version_counts =~= s.version_counts.insert((id, rev), 1));
    assert(s2.package_counts =~= s.package_counts.insert(id, 1));
}

/// Two downloads of the same revision of a package that the store does not
/// hold, in the top directory: the first creates the package and its
/// revision and is the only one that reads the repository; the second only
/// counts; afterwards the store holds one more package, whose total and
/// whose revision's count are both two.
pub proof fn law_unknown_package_downloaded_twice<E>(
    url: Seq<char>,
    rev: Seq<char>,
    s: DownloadStore,
    fetched: GithubRepoDataView,
)
    requires
        store_wf(s),
        !s.packages.contains_key(normalized_repo_url(url)),
    ensures
        ({
            let u = normalized_repo_url(url);
            let id = s.next_id;
            let (t1, s1) = download_against::<E>(url, rev, Seq::empty(), s, fetched);
            let (t2, s2) = download_against::<E>(url, rev, Seq::empty(), s1, fetched);
            &&& t1 == seq![
                DownloadActionView::<E>::FindPackage { url: u },
                DownloadActionView::FetchRepo { url: u, path: None, revision: None },
                DownloadActionView::CreateShadowPackage { url: u, rev, data: fetched, total_files: -1i32 },
                DownloadActionView::CountVersionDownload { package_id: id, rev },
                DownloadActionView::CountPackageDownload { package_id: id },
                DownloadActionView::Done(2),
            ]
            &&& t2 == seq![
                DownloadActionView::<E>::FindPackage { url: u },
                DownloadActionView::FindVersion { package_id: id, rev },
                DownloadActionView::CountVersionDownload { package_id: id, rev },
                DownloadActionView::CountPackageDownload { package_id: id },
                DownloadActionView::Done(2),
            ]
            &&& s2 == DownloadStore {
                packages: s.packages.insert(u, id),
                package_counts: s.package_counts.insert(id, 2),
                version_counts: s.version_counts.insert((id, rev), 2),
                next_id: (id + 1) as i32,
            }
        }),
{
    let u = normalized_repo_url(url);
    let id = s.next_id;
    law_unknown_package_download::<E>(url, rev, s, fetched);
    let (t1, s1) = download_against::<E>(url, rev, Seq::empty(), s, fetched);
    assert(s1.packages[u] == id);
    law_known_revision_download::<E>(url, rev, Seq::empty(), s1, fetched);
    let (t2, s2) = download_against::<E>(url, rev, Seq::empty(), s1, fetched);
    assert(s2.version_counts =~= s.version_counts.insert((id, rev), 2));
    assert(s2.package_counts =~= s.package_counts.insert(id, 2));
}

} // verus!
