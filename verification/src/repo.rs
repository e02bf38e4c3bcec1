//! What is known of a package's repository once it has been fetched.

use vstd::prelude::*;

verus! {

/// A package's data as read from its repository: the manifest's name and
/// version, the readme, the repository's license, description, size and
/// counters, the default branch (or the package's url, once the crawler has
/// set it) and the revision read.
#[derive(Debug)]
pub struct GithubRepoData {
    pub name: String,
    pub version: String,
    pub readme_content: String,
    pub license: String,
    pub description: String,
    pub size: i32,
    pub stars_count: i32,
    pub forks_count: i32,
    pub url: String,
    pub rev: String,
}

pub struct GithubRepoDataView {
    pub name: Seq<char>,
    pub version: Seq<char>,
    pub readme_content: Seq<char>,
    pub license: Seq<char>,
    pub description: Seq<char>,
    pub size: i32,
    pub stars_count: i32,
    pub forks_count: i32,
    pub url: Seq<char>,
    pub rev: Seq<char>,
}

impl View for GithubRepoData {
    type V = GithubRepoDataView;

    open spec fn view(&self) -> GithubRepoDataView {
        GithubRepoDataView {
            name: self.name@,
            version: self.version@,
            readme_content: self.readme_content@,
            license: self.license@,
            description: self.description@,
            size: self.size,
            stars_count: self.stars_count,
            forks_count: self.forks_count,
            url: self.url@,
            rev: self.rev@,
        }
    }
}

/// Two repositories' data are the same package when their names and
/// versions agree.
pub open spec fn same_package(a: GithubRepoDataView, b: GithubRepoDataView) -> bool {
    a.name == b.name && a.version == b.version
}

/// Two repositories' data are equal when they are the same package.
impl PartialEq for GithubRepoData {
    fn eq(&self, other: &GithubRepoData) -> (r: bool) {
        self.name == other.name && self.version == other.version
    }
}

impl vstd::std_specs::cmp::PartialEqSpecImpl for GithubRepoData {
    open spec fn obeys_eq_spec() -> bool {
        true
    }

    open spec fn eq_spec(&self, other: &GithubRepoData) -> bool {
        same_package(self@, other@)
    }
}

impl Eq for GithubRepoData {}

impl GithubRepoData {
    /// A copy of this data.
    pub fn copy(&self) -> (r: GithubRepoData)
        ensures
            r == *self,
    {
        GithubRepoData {
            name: self.name.clone(),
            version: self.version.clone(),
            readme_content: self.readme_content.clone(),
            license: self.license.clone(),
            description: self.description.clone(),
            size: self.size,
            stars_count: self.stars_count,
            forks_count: self.forks_count,
            url: self.url.clone(),
            rev: self.rev.clone(),
        }
    }

    /// Equality as packages: same name and same version.
    pub fn same_package_as(&self, other: &GithubRepoData) -> (b: bool)
        ensures
            b == same_package(self@, other@),
    {
        self.name == other.name && self.version == other.version
    }
}

} // verus!
