//! Reading a package's data from its GitHub repository.
//!
//! `RepoFetch::step` decides; the caller talks to GitHub and to the text
//! summarisation service and parses the manifest. The repository's metadata
//! comes first, then (when no revision was asked for) its latest commit, then
//! its readme, whose relative links are made absolute and which gives the
//! description when the repository has none, and last the `Move.toml`
//! manifest, which gives the package's name and version.

use vstd::prelude::*;
use crate::text::{replace_all, replace_str, concat_str, concat3, take_chars};
use crate::repo::{GithubRepoData, GithubRepoDataView};

verus! {

/// A repository's license.
pub struct GithubLicenseInfo {
    pub key: String,
    pub name: String,
    pub url: String,
}

/// A repository's metadata (all empty or zero when GitHub's answer could not
/// be read).
pub struct GithubRepoInfo {
    pub description: Option<String>,
    pub size: i32,
    pub stargazers_count: i32,
    pub forks_count: i32,
    pub default_branch: String,
    pub license: Option<GithubLicenseInfo>,
}

// ------------------------------------------------------------------ urls

/// The GitHub API url of a repository.
pub open spec fn api_repo_url(repo_url: Seq<char>) -> Seq<char> {
    replace_all(repo_url, "https://github.com/"@, "https://api.github.com/repos/"@)
}

/// The url listing a repository's commits.
pub open spec fn commits_url(repo_url: Seq<char>) -> Seq<char> {
    api_repo_url(repo_url) + "/commits"@
}

/// The raw url of a repository's readme at a revision.
pub open spec fn readme_url(repo_url: Seq<char>, rev: Seq<char>) -> Seq<char> {
    replace_all(repo_url, "https://github.com"@, "https://raw.githubusercontent.com"@) + "/"@ + rev
        + "/README.md"@
}

/// The raw url of the manifest: next to the readme, or at `path` below the
/// revision's top directory.
pub open spec fn manifest_url(readme: Seq<char>, path: Option<Seq<char>>) -> Seq<char> {
    match path {
        Some(p) => replace_all(readme, "/README.md"@, Seq::empty()) + "/"@ + p,
        None => replace_all(readme, "README.md"@, "Move.toml"@),
    }
}

/// Relative links and images of a readme made absolute: `src="x` and `](x`
/// get the readme's directory in front, unless `x` starts with `http`.
pub open spec fn absolute_links(content: Seq<char>, readme: Seq<char>) -> Seq<char> {
    let base = replace_all(readme, "README.md"@, Seq::empty());
    let src = "src=\""@ + base;
    let md = "]("@ + base;
    let a = replace_all(content, "src=\""@, src);
    let b = replace_all(a, src + "http"@, "src=\"http"@);
    let c = replace_all(b, "]("@, md);
    replace_all(c, md + "http"@, "](http"@)
}

pub fn api_url_of(repo_url: &str) -> (r: String)
    ensures
        r@ == api_repo_url(repo_url@),
{
    proof {
        reveal_strlit("https://github.com/");
    }
    replace_str(repo_url, "https://github.com/", "https://api.github.com/repos/")
}

pub fn commits_url_of(repo_url: &str) -> (r: String)
    ensures
        r@ == commits_url(repo_url@),
{
    let api = api_url_of(repo_url);
    concat_str(api.as_str(), "/commits")
}

pub fn readme_url_of(repo_url: &str, rev: &str) -> (r: String)
    ensures
        r@ == readme_url(repo_url@, rev@),
{
    proof {
        reveal_strlit("https://github.com");
    }
    let raw = replace_str(repo_url, "https://github.com", "https://raw.githubusercontent.com");
    let a = concat3(raw.as_str(), "/", rev);
    concat_str(a.as_str(), "/README.md")
}

pub fn manifest_url_of(readme: &str, path: &Option<String>) -> (r: String)
    ensures
        r@ == manifest_url(readme@, path.deep_view()),
{
    proof {
        reveal_strlit("/README.md");
        reveal_strlit("README.md");
        reveal_strlit("");
    }
    match path {
        Some(p) => {
            let dir = replace_str(readme, "/README.md", "");
            assert(""@ =~= Seq::<char>::empty());
            concat3(dir.as_str(), "/", p.as_str())
        },
        None => replace_str(readme, "README.md", "Move.toml"),
    }
}

pub fn absolute_links_of(content: &str, readme: &str) -> (r: String)
    ensures
        r@ == absolute_links(content@, readme@),
{
    proof {
        reveal_strlit("README.md");
        reveal_strlit("");
        reveal_strlit("src=\"");
        reveal_strlit("](");
        reveal_strlit("http");
    }
    let base = replace_str(readme, "README.md", "");
    assert(""@ =~= Seq::<char>::empty());
    let src = concat_str("src=\"", base.as_str());
    let md = concat_str("](", base.as_str());
    let src_http = concat_str(src.as_str(), "http");
    let md_http = concat_str(md.as_str(), "http");
    let a = replace_str(content, "src=\"", src.as_str());
    let b = replace_str(a.as_str(), src_http.as_str(), "src=\"http");
    let c = replace_str(b.as_str(), "](", md.as_str());
    replace_str(c.as_str(), md_http.as_str(), "](http")
}

// ------------------------------------------------------------ description

/// The text of a markdown document without its markup, as the
/// `strip_markdown` crate renders it.
pub uninterp spec fn markdown_stripped(s: Seq<char>) -> Seq<char>;

/// `strip_markdown::strip_markdown`; its result is only named here.
#[verifier::external_body]
fn strip_markdown_of(s: &str) -> (r: String)
    ensures
        r@ == markdown_stripped(s@),
{
    strip_markdown::strip_markdown(s)
}

/// The first hundred characters of a sequence (all of it when shorter).
pub open spec fn first_hundred(s: Seq<char>) -> Seq<char> {
    if s.len() <= 100 {
        s
    } else {
        s.take(100)
    }
}

/// A description made from a summary of the readme: its text without
/// markup, or the readme's text when that is empty, cut to a hundred
/// characters.
pub open spec fn description_from(summary: Seq<char>, readme: Seq<char>) -> Seq<char> {
    let s = markdown_stripped(summary);
    first_hundred(if s.len() == 0 { markdown_stripped(readme) } else { s })
}

/// A description made from a summary holds at most a hundred characters.
pub proof fn law_description_at_most_hundred(summary: Seq<char>, readme: Seq<char>)
    ensures
        description_from(summary, readme).len() <= 100,
{
}

pub fn description_of(summary: &str, readme: &str) -> (r: String)
    ensures
        r@ == description_from(summary@, readme@),
{
    let s = strip_markdown_of(summary);
    let t = if s.unicode_len() == 0 {
        strip_markdown_of(readme)
    } else {
        s
    };
    take_chars(t.as_str(), 100)
}

// --------------------------------------------------------------- the flow

#[derive(Clone, Copy, Debug, PartialEq, Eq, Structural)]
pub enum FetchPhase {
    AwaitRepoInfo,
    AwaitLatestCommit,
    AwaitReadme,
    AwaitFirstSummary,
    AwaitSecondSummary,
    AwaitManifest,
    Finished,
}

/// The state of one repository read.
pub struct RepoFetch {
    pub phase: FetchPhase,
    pub repo_url: String,
    /// Where the manifest lies below the top directory, if not there.
    pub path: Option<String>,
    /// The revision read (empty until chosen).
    pub rev: String,
    /// Whether the revision was given rather than left to the latest commit.
    pub rev_given: bool,
    pub description: Option<String>,
    pub size: i32,
    pub stars_count: i32,
    pub forks_count: i32,
    pub default_branch: String,
    pub license: String,
    pub readme_url: String,
    /// The readme as fetched, while its description is being made.
    pub readme_raw: String,
    /// The readme with absolute links.
    pub readme_content: String,
    /// The first summary of the readme.
    pub summary: String,
}

pub struct RepoFetchModel {
    pub phase: FetchPhase,
    pub repo_url: Seq<char>,
    pub path: Option<Seq<char>>,
    pub rev: Seq<char>,
    pub rev_given: bool,
    pub description: Option<Seq<char>>,
    pub size: i32,
    pub stars_count: i32,
    pub forks_count: i32,
    pub default_branch: Seq<char>,
    pub license: Seq<char>,
    pub readme_url: Seq<char>,
    pub readme_raw: Seq<char>,
    pub readme_content: Seq<char>,
    pub summary: Seq<char>,
}

impl View for RepoFetch {
    type V = RepoFetchModel;

    open spec fn view(&self) -> RepoFetchModel {
        RepoFetchModel {
            phase: self.phase,
            repo_url: self.repo_url@,
            path: self.path.deep_view(),
            rev: self.rev@,
            rev_given: self.rev_given,
            description: self.description.deep_view(),
            size: self.size,
            stars_count: self.stars_count,
            forks_count: self.forks_count,
            default_branch: self.default_branch@,
            license: self.license@,
            readme_url: self.readme_url@,
            readme_raw: self.readme_raw@,
            readme_content: self.readme_content@,
            summary: self.summary@,
        }
    }
}

pub struct GithubRepoInfoView {
    pub description: Option<Seq<char>>,
    pub size: i32,
    pub stargazers_count: i32,
    pub forks_count: i32,
    pub default_branch: Seq<char>,
    pub license_name: Option<Seq<char>>,
}

impl View for GithubRepoInfo {
    type V = GithubRepoInfoView;

    open spec fn view(&self) -> GithubRepoInfoView {
        GithubRepoInfoView {
            description: self.description.deep_view(),
            size: self.size,
            stargazers_count: self.stargazers_count,
            forks_count: self.forks_count,
            default_branch: self.default_branch@,
            license_name: match self.license {
                Some(l) => Some(l.name@),
                None => None,
            },
        }
    }
}

/// What the outside world answered.
pub enum FetchEvent<E> {
    RepoInfo(GithubRepoInfo),
    /// The sha of the latest commit, when it could be read.
    LatestCommit(Option<String>),
    /// Whether the readme exists (the answer is not "not found") and its
    /// text, when it could be read.
    Readme { found: bool, body: Option<String> },
    /// The summary of a text (empty when none could be had).
    Summary(String),
    /// The package name and version of the manifest, when it could be parsed.
    Manifest(Option<(String, String)>),
    Failed(E),
}

pub enum FetchEventView<E> {
    RepoInfo(GithubRepoInfoView),
    LatestCommit(Option<Seq<char>>),
    Readme { found: bool, body: Option<Seq<char>> },
    Summary(Seq<char>),
    Manifest(Option<(Seq<char>, Seq<char>)>),
    Failed(E),
}

impl<E> View for FetchEvent<E> {
    type V = FetchEventView<E>;

    open spec fn view(&self) -> FetchEventView<E> {
        match self {
            FetchEvent::RepoInfo(i) => FetchEventView::RepoInfo(i@),
            FetchEvent::LatestCommit(s) => FetchEventView::LatestCommit(s.deep_view()),
            FetchEvent::Readme { found, body } => FetchEventView::Readme {
                found: *found,
                body: body.deep_view(),
            },
            FetchEvent::Summary(s) => FetchEventView::Summary(s@),
            FetchEvent::Manifest(m) => FetchEventView::Manifest(
                match m {
                    Some(p) => Some((p.0@, p.1@)),
                    None => None,
                },
            ),
            FetchEvent::Failed(e) => FetchEventView::Failed(*e),
        }
    }
}

/// What to ask next.
pub enum FetchAction<E> {
    GetRepoInfo { url: String },
    GetLatestCommit { url: String },
    GetReadme { url: String },
    Summarize { text: String },
    GetManifest { url: String },
    Done(GithubRepoData),
    Fail(E),
    Stay,
}

pub enum FetchActionView<E> {
    GetRepoInfo { url: Seq<char> },
    GetLatestCommit { url: Seq<char> },
    GetReadme { url: Seq<char> },
    Summarize { text: Seq<char> },
    GetManifest { url: Seq<char> },
    Done(GithubRepoDataView),
    Fail(E),
    Stay,
}

impl<E> View for FetchAction<E> {
    type V = FetchActionView<E>;

    open spec fn view(&self) -> FetchActionView<E> {
        match self {
            FetchAction::GetRepoInfo { url } => FetchActionView::GetRepoInfo { url: url@ },
            FetchAction::GetLatestCommit { url } => FetchActionView::GetLatestCommit { url: url@ },
            FetchAction::GetReadme { url } => FetchActionView::GetReadme { url: url@ },
            FetchAction::Summarize { text } => FetchActionView::Summarize { text: text@ },
            FetchAction::GetManifest { url } => FetchActionView::GetManifest { url: url@ },
            FetchAction::Done(d) => FetchActionView::Done(d@),
            FetchAction::Fail(e) => FetchActionView::Fail(*e),
            FetchAction::Stay => FetchActionView::Stay,
        }
    }
}

/// The branch read when a repository names none.
pub open spec fn effective_branch(b: Seq<char>) -> Seq<char> {
    if b.len() == 0 {
        "master"@
    } else {
        b
    }
}

/// Once the revision is chosen, the readme is asked for.
pub open spec fn with_rev<E>(m: RepoFetchModel, rev: Seq<char>) -> (RepoFetchModel, FetchActionView<E>) {
    let url = readme_url(m.repo_url, rev);
    (
        RepoFetchModel { phase: FetchPhase::AwaitReadme, rev, readme_url: url, ..m },
        FetchActionView::GetReadme { url },
    )
}

/// Once the readme is settled, the manifest is asked for.
pub open spec fn to_manifest<E>(m: RepoFetchModel, readme_content: Seq<char>) -> (
    RepoFetchModel,
    FetchActionView<E>,
) {
    (
        RepoFetchModel { phase: FetchPhase::AwaitManifest, readme_content, ..m },
        FetchActionView::GetManifest { url: manifest_url(m.readme_url, m.path) },
    )
}

/// The description made from a summary, then the manifest.
pub open spec fn with_summary<E>(m: RepoFetchModel, summary: Seq<char>) -> (
    RepoFetchModel,
    FetchActionView<E>,
) {
    let m2 = RepoFetchModel { description: Some(description_from(summary, m.readme_raw)), ..m };
    to_manifest(m2, absolute_links(m.readme_raw, m.readme_url))
}

/// The data read: the manifest's name and version (empty when it could not
/// be parsed), with the repository's metadata, the readme, the default
/// branch in `url` and the revision.
pub open spec fn repo_data(m: RepoFetchModel, manifest: Option<(Seq<char>, Seq<char>)>) -> GithubRepoDataView {
    GithubRepoDataView {
        name: match manifest {
            Some(p) => p.0,
            None => Seq::empty(),
        },
        version: match manifest {
            Some(p) => p.1,
            None => Seq::empty(),
        },
        readme_content: m.readme_content,
        license: m.license,
        description: match m.description {
            Some(d) => d,
            None => Seq::empty(),
        },
        size: m.size,
        stars_count: m.stars_count,
        forks_count: m.forks_count,
        url: m.default_branch,
        rev: m.rev,
    }
}

pub open spec fn fetch_next<E>(m: RepoFetchModel, e: FetchEventView<E>) -> (
    RepoFetchModel,
    FetchActionView<E>,
) {
    let finish = RepoFetchModel { phase: FetchPhase::Finished, ..m };
    match (m.phase, e) {
        (FetchPhase::Finished, _) => (m, FetchActionView::Stay),
        (_, FetchEventView::Failed(x)) => (finish, FetchActionView::Fail(x)),
        (FetchPhase::AwaitRepoInfo, FetchEventView::RepoInfo(i)) => {
            let m2 = RepoFetchModel {
                description: i.description,
                size: i.size,
                stars_count: i.stargazers_count,
                forks_count: i.forks_count,
                default_branch: effective_branch(i.default_branch),
                license: match i.license_name {
                    Some(n) => n,
                    None => Seq::empty(),
                },
                ..m
            };
            if !m.rev_given {
                (
                    RepoFetchModel { phase: FetchPhase::AwaitLatestCommit, ..m2 },
                    FetchActionView::GetLatestCommit { url: commits_url(m.repo_url) },
                )
            } else {
                with_rev(m2, m.rev)
            }
        },
        (FetchPhase::AwaitLatestCommit, FetchEventView::LatestCommit(sha)) => with_rev(
            m,
            match sha {
                Some(s) => s,
                None => m.default_branch,
            },
        ),
        (FetchPhase::AwaitReadme, FetchEventView::Readme { found, body }) => {
            if found && body is Some {
                let content = body->0;
                if m.description is None {
                    (
                        RepoFetchModel { phase: FetchPhase::AwaitFirstSummary, readme_raw: content, ..m },
                        FetchActionView::Summarize { text: content },
                    )
                } else {
                    to_manifest(m, absolute_links(content, m.readme_url))
                }
            } else {
                to_manifest(m, Seq::empty())
            }
        },
        (FetchPhase::AwaitFirstSummary, FetchEventView::Summary(s)) => {
            if s.len() > 100 {
                (
                    RepoFetchModel { phase: FetchPhase::AwaitSecondSummary, summary: s, ..m },
                    FetchActionView::Summarize { text: s },
                )
            } else {
                with_summary(m, s)
            }
        },
        (FetchPhase::AwaitSecondSummary, FetchEventView::Summary(s)) => with_summary(
            m,
            if s.len() == 0 { m.summary } else { s },
        ),
        (FetchPhase::AwaitManifest, FetchEventView::Manifest(p)) => (
            finish,
            FetchActionView::Done(repo_data(m, p)),
        ),
        _ => (m, FetchActionView::Stay),
    }
}

impl RepoFetch {
    /// Starts reading the repository at `repo_url`, with its manifest at
    /// `path` below the top directory (there when `None`), at revision `rev`
    /// (the latest commit when `None`).
    pub fn new<E>(repo_url: &str, path: Option<String>, rev: Option<String>) -> (r: (
        RepoFetch,
        FetchAction<E>,
    ))
        ensures
            r.0@ == (RepoFetchModel {
                phase: FetchPhase::AwaitRepoInfo,
                repo_url: repo_url@,
                path: path.deep_view(),
                rev: match rev {
                    Some(s) => s@,
                    None => Seq::empty(),
                },
                rev_given: rev is Some,
                description: None,
                size: 0,
                stars_count: 0,
                forks_count: 0,
                default_branch: Seq::empty(),
                license: Seq::empty(),
                readme_url: Seq::empty(),
                readme_raw: Seq::empty(),
                readme_content: Seq::empty(),
                summary: Seq::empty(),
            }),
            r.1@ == (FetchActionView::<E>::GetRepoInfo { url: api_repo_url(repo_url@) }),
    {
        let url = api_url_of(repo_url);
        let rev_given = rev.is_some();
        let rev = match rev {
            Some(s) => s,
            None => String::new(),
        };
        (
            RepoFetch {
                phase: FetchPhase::AwaitRepoInfo,
                repo_url: String::from_str(repo_url),
                path,
                rev,
                rev_given,
                description: None,
                size: 0,
                stars_count: 0,
                forks_count: 0,
                default_branch: String::new(),
                license: String::new(),
                readme_url: String::new(),
                readme_raw: String::new(),
                readme_content: String::new(),
                summary: String::new(),
            },
            FetchAction::GetRepoInfo { url },
        )
    }

    fn with_rev<E>(self, rev: String) -> (r: (RepoFetch, FetchAction<E>))
        ensures
            (r.0@, r.1@) == with_rev::<E>(self@, rev@),
    {
        let url = readme_url_of(self.repo_url.as_str(), rev.as_str());
        let action_url = url.clone();
        (
            RepoFetch { phase: FetchPhase::AwaitReadme, rev, readme_url: url, ..self },
            FetchAction::GetReadme { url: action_url },
        )
    }

    fn to_manifest<E>(self, readme_content: String) -> (r: (RepoFetch, FetchAction<E>))
        ensures
            (r.0@, r.1@) == to_manifest::<E>(self@, readme_content@),
    {
        let url = manifest_url_of(self.readme_url.as_str(), &self.path);
        (
            RepoFetch { phase: FetchPhase::AwaitManifest, readme_content, ..self },
            FetchAction::GetManifest { url },
        )
    }

    fn with_summary<E>(self, summary: &str) -> (r: (RepoFetch, FetchAction<E>))
        ensures
            (r.0@, r.1@) == with_summary::<E>(self@, summary@),
    {
        let d = description_of(summary, self.readme_raw.as_str());
        let content = absolute_links_of(self.readme_raw.as_str(), self.readme_url.as_str());
        let next = RepoFetch { description: Some(d), ..self };
        next.to_manifest(content)
    }

    /// The next state and action after `event`.
    pub fn step<E>(self, event: FetchEvent<E>) -> (r: (RepoFetch, FetchAction<E>))
        ensures
            (r.0@, r.1@) == fetch_next(self@, event@),
    {
        if self.phase == FetchPhase::Finished {
            return (self, FetchAction::Stay);
        }
        match event {
            FetchEvent::Failed(x) => (RepoFetch { phase: FetchPhase::Finished, ..self }, FetchAction::Fail(x)),
            FetchEvent::RepoInfo(i) => {
                if self.phase != FetchPhase::AwaitRepoInfo {
                    return (self, FetchAction::Stay);
                }
                proof {
                    reveal_strlit("master");
                }
                let default_branch = if i.default_branch.unicode_len() == 0 {
                    String::from_str("master")
                } else {
                    i.default_branch
                };
                let license = match i.license {
                    Some(l) => l.name,
                    None => String::new(),
                };
                let next = RepoFetch {
                    description: i.description,
                    size: i.size,
                    stars_count: i.stargazers_count,
                    forks_count: i.forks_count,
                    default_branch,
                    license,
                    ..self
                };
                if !next.rev_given {
                    let url = commits_url_of(next.repo_url.as_str());
                    (RepoFetch { phase: FetchPhase::AwaitLatestCommit, ..next }, FetchAction::GetLatestCommit { url })
                } else {
                    let rev = next.rev.clone();
                    next.with_rev(rev)
                }
            },
            FetchEvent::LatestCommit(sha) => {
                if self.phase != FetchPhase::AwaitLatestCommit {
                    return (self, FetchAction::Stay);
                }
                let rev = match sha {
                    Some(s) => s,
                    None => self.default_branch.clone(),
                };
                self.with_rev(rev)
            },
            FetchEvent::Readme { found, body } => {
                if self.phase != FetchPhase::AwaitReadme {
                    return (self, FetchAction::Stay);
                }
                match body {
                    Some(content) => {
                        if !found {
                            return self.to_manifest(String::new());
                        }
                        if self.description.is_none() {
                            let text = content.clone();
                            (
                                RepoFetch { phase: FetchPhase::AwaitFirstSummary, readme_raw: content, ..self },
                                FetchAction::Summarize { text },
                            )
                        } else {
                            let c = absolute_links_of(content.as_str(), self.readme_url.as_str());
                            self.to_manifest(c)
                        }
                    },
                    None => self.to_manifest(String::new()),
                }
            },
            FetchEvent::Summary(s) => {
                if self.phase == FetchPhase::AwaitFirstSummary {
                    if s.unicode_len() > 100 {
                        let text = s.clone();
                        (
                            RepoFetch { phase: FetchPhase::AwaitSecondSummary, summary: s, ..self },
                            FetchAction::Summarize { text },
                        )
                    } else {
                        self.with_summary(s.as_str())
                    }
                } else if self.phase == FetchPhase::AwaitSecondSummary {
                    if s.unicode_len() == 0 {
                        let first = self.summary.clone();
                        self.with_summary(first.as_str())
                    } else {
                        self.with_summary(s.as_str())
                    }
                } else {
                    (self, FetchAction::Stay)
                }
            },
            FetchEvent::Manifest(p) => {
                if self.phase != FetchPhase::AwaitManifest {
                    return (self, FetchAction::Stay);
                }
                let (name, version) = match p {
                    Some(nv) => (nv.0, nv.1),
                    None => (String::new(), String::new()),
                };
                let data = GithubRepoData {
                    name,
                    version,
                    readme_content: self.readme_content.clone(),
                    license: self.license.clone(),
                    description: match &self.description {
                        Some(d) => d.clone(),
                        None => String::new(),
                    },
                    size: self.size,
                    stars_count: self.stars_count,
                    forks_count: self.forks_count,
                    url: self.default_branch.clone(),
                    rev: self.rev.clone(),
                };
                (RepoFetch { phase: FetchPhase::Finished, ..self }, FetchAction::Done(data))
            },
        }
    }
}

/// A readme answered with "not found" is not read, whatever body came with
/// the answer: nothing is summarised, the description stays as the
/// repository gave it, the manifest is asked for next, and the data read in
/// the end holds an empty readme.
pub proof fn law_missing_readme_is_not_read<E>(
    m: RepoFetchModel,
    body: Option<Seq<char>>,
    manifest: Option<(Seq<char>, Seq<char>)>,
)
    requires
        m.phase == FetchPhase::AwaitReadme,
    ensures
        ({
            let (m2, a) = fetch_next::<E>(m, FetchEventView::Readme { found: false, body });
            let (_, done) = fetch_next::<E>(m2, FetchEventView::Manifest(manifest));
            &&& !(a is Summarize)
            &&& a == FetchActionView::<E>::GetManifest { url: manifest_url(m.readme_url, m.path) }
            &&& m2.phase == FetchPhase::AwaitManifest
            &&& m2.readme_content.len() == 0
            &&& m2.description == m.description
            &&& done matches FetchActionView::Done(d) && d.readme_content.len() == 0 && d.description == (
                match m.description {
                    Some(x) => x,
                    None => Seq::<char>::empty(),
                })
        }),
{
}

/// A readme that was found, read while the repository has no description,
/// is what is summarised.
pub proof fn law_found_readme_is_summarised<E>(m: RepoFetchModel, content: Seq<char>)
    requires
        m.phase == FetchPhase::AwaitReadme,
        m.description is None,
    ensures
        ({
            let (m2, a) = fetch_next::<E>(m, FetchEventView::Readme { found: true, body: Some(content) });
            &&& a == FetchActionView::<E>::Summarize { text: content }
            &&& m2.readme_raw == content
        }),
{
}

/// A first summary over a hundred characters is summarised once more. A
/// second summary that is not empty is the one the description is made
/// from (the first is then left aside); only an empty second summary falls
/// back to the first. Either way the readme keeps its links made absolute,
/// the manifest is asked for next, and the data read in the end carries
/// that description.
pub proof fn law_second_summary_replaces_first<E>(
    m: RepoFetchModel,
    first: Seq<char>,
    second: Seq<char>,
    manifest: Option<(Seq<char>, Seq<char>)>,
)
    requires
        m.phase == FetchPhase::AwaitFirstSummary,
        first.len() > 100,
    ensures
        ({
            let (m1, a1) = fetch_next::<E>(m, FetchEventView::Summary(first));
            let (m2, a2) = fetch_next::<E>(m1, FetchEventView::Summary(second));
            let (_, done) = fetch_next::<E>(m2, FetchEventView::Manifest(manifest));
            &&& a1 == FetchActionView::<E>::Summarize { text: first }
            &&& second.len() > 0 ==> m2.description == Some(description_from(second, m.readme_raw))
            &&& second.len() == 0 ==> m2.description == Some(description_from(first, m.readme_raw))
            &&& a2 == FetchActionView::<E>::GetManifest { url: manifest_url(m.readme_url, m.path) }
            &&& m2.readme_content == absolute_links(m.readme_raw, m.readme_url)
            &&& second.len() > 0 ==> (done matches FetchActionView::Done(d) && d.description == description_from(
                second,
                m.readme_raw,
            ))
        }),
{
}

/// A first summary of at most a hundred characters is not summarised
/// again: the description is made from it.
pub proof fn law_short_summary_is_kept<E>(m: RepoFetchModel, first: Seq<char>)
    requires
        m.phase == FetchPhase::AwaitFirstSummary,
        first.len() <= 100,
    ensures
        ({
            let (m1, a1) = fetch_next::<E>(m, FetchEventView::Summary(first));
            &&& !(a1 is Summarize)
            &&& m1.description == Some(description_from(first, m.readme_raw))
            &&& m1.phase == FetchPhase::AwaitManifest
        }),
{
}

} // verus!
