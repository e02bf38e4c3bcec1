//! The decisions of the crawler that finds Move packages on GitHub.
//!
//! The crawler pages through GitHub's code search for `Move.toml` files,
//! reads each repository found, turns the search result into the package's
//! url and revision, and publishes each package once, if its version is a
//! semantic version.

use vstd::prelude::*;
use crate::text::{
    chars_of, string_of, contains, contains_str, replace_all, replace_str, split_on, join_with,
    split_chars, join_chars, last_piece, last_piece_of, decimal, decimal_string, concat3,
    lemma_split_on_nonempty,
};
use crate::repo::{GithubRepoData, GithubRepoDataView, same_package};
use crate::naming::{semver_accepts, is_version_valid};

verus! {

/// The repository of a search result.
pub struct GithubSearchRepository {
    pub html_url: String,
}

/// One file found by GitHub's code search.
pub struct GithubSearchItem {
    /// The API url of the file, ending in `?ref=` and the revision.
    pub url: String,
    /// The file's path in the repository.
    pub path: String,
    pub repository: GithubSearchRepository,
    /// The web url of the file.
    pub html_url: String,
}

/// A page of GitHub's code search.
pub struct GithubSearchResult {
    pub items: Vec<GithubSearchItem>,
}

// ----------------------------------------------------------------- paging

/// The first and last page of a crawl.
pub const FIRST_PAGE: u64 = 1;
pub const END_PAGE: u64 = 120;

/// The search order of a crawl page: newest first for the first sixty
/// pages, oldest first after.
pub open spec fn page_order(page: nat) -> Seq<char> {
    if page >= 61 {
        "asc"@
    } else {
        "desc"@
    }
}

/// The search url of a crawl page. GitHub only serves the first ten pages of
/// a search, so the page asked for cycles through them.
pub open spec fn crawl_page_url(page: nat) -> Seq<char> {
    "https://api.github.com/search/code?q=package%20in:file%20extension:toml%20filename:Move%20language:TOML&per_page=100&page="@
        + decimal((page % 10) + 1) + "&order="@ + page_order(page) + "&sort=indexed"@
}

/// Whether the crawler pauses after a page: after every page but the fiftieth.
pub open spec fn pauses_after(page: nat) -> bool {
    page != 50
}

/// The search url of a crawl page.
pub fn crawl_page(page: u64) -> (url: String)
    ensures
        url@ == crawl_page_url(page as nat),
{
    let order = if page >= 61 {
        "asc"
    } else {
        "desc"
    };
    let n = decimal_string(page % 10 + 1);
    let a = concat3(
        "https://api.github.com/search/code?q=package%20in:file%20extension:toml%20filename:Move%20language:TOML&per_page=100&page=",
        n.as_str(),
        "&order=",
    );
    let url = concat3(a.as_str(), order, "&sort=indexed");
    proof {
        reveal_strlit("asc");
        reveal_strlit("desc");
    }
    url
}

/// Whether the crawler pauses after a page.
pub fn pause_after(page: u64) -> (b: bool)
    ensures
        b == pauses_after(page as nat),
{
    page != 50
}

// ------------------------------------------------------------- one package

/// The url of a package found by the search: the repository's when the
/// manifest is in its top directory, else the web url of the manifest's
/// directory.
pub open spec fn found_url(path: Seq<char>, repo_url: Seq<char>, file_url: Seq<char>) -> Seq<char> {
    if path == "Move.toml"@ {
        repo_url
    } else {
        replace_all(file_url, "/Move.toml"@, Seq::empty())
    }
}

/// A web url that points into a revision (`.../owner/repo/blob/<rev>/...`)
/// made to point into the tree of a branch instead.
pub open spec fn beautified_url(url: Seq<char>, branch: Seq<char>) -> Seq<char> {
    let t = split_on(url, '/');
    if contains(url, "/blob/"@) && t[5] == "blob"@ {
        join_with(t.update(5, "tree"@).update(6, branch), "/"@)
    } else {
        url
    }
}

/// The urls that cannot point into a branch: they point into a revision
/// but have too few pieces, and beautifying them panics.
pub open spec fn beautify_panics(url: Seq<char>) -> bool {
    let t = split_on(url, '/');
    contains(url, "/blob/"@) && (t.len() <= 5 || (t[5] == "blob"@ && t.len() <= 6))
}

/// The branch to show: the one the repository named, else `master`.
pub open spec fn branch_or_master(b: Seq<char>) -> Seq<char> {
    if b.len() == 0 {
        "master"@
    } else {
        b
    }
}

/// The data of a package found by the search: the url it is published
/// under and the revision of the search result; the rest as read.
pub open spec fn scraped(data: GithubRepoDataView, path: Seq<char>, repo_url: Seq<char>, file_url: Seq<char>, api_url: Seq<char>) -> GithubRepoDataView {
    GithubRepoDataView {
        url: beautified_url(found_url(path, repo_url, file_url), branch_or_master(data.url)),
        rev: last_piece(api_url, "ref="@),
        ..data
    }
}

/// Whether `beautified_url` is out of reach for `url`: the url points into a
/// revision but has too few pieces.
pub fn beautify_would_panic(url: &str) -> (b: bool)
    ensures
        b == beautify_panics(url@),
{
    proof {
        reveal_strlit("/blob/");
        reveal_strlit("blob");
        lemma_split_on_nonempty(url@, '/');
    }
    if !contains_str(url, "/blob/") {
        return false;
    }
    let uv = chars_of(url);
    let tokens = split_chars(&uv, '/');
    let ghost t = tokens@.map_values(|p: Vec<char>| p@);
    if tokens.len() <= 5 {
        return true;
    }
    assert(t[5] == tokens@[5]@);
    let blob = chars_of("blob");
    vec_chars_eq(&tokens[5], &blob) && tokens.len() <= 6
}

/// The url of a found package pointing into a branch's tree.
pub fn beautify_url(url: &str, branch: &str) -> (r: String)
    requires
        !beautify_panics(url@),
    ensures
        r@ == beautified_url(url@, branch@),
{
    proof {
        reveal_strlit("/blob/");
        reveal_strlit("blob");
        reveal_strlit("tree");
        reveal_strlit("/");
        lemma_split_on_nonempty(url@, '/');
    }
    if !contains_str(url, "/blob/") {
        return String::from_str(url);
    }
    let uv = chars_of(url);
    let mut tokens = split_chars(&uv, '/');
    let ghost t = tokens@.map_values(|p: Vec<char>| p@);
    let blob = chars_of("blob");
    if !vec_chars_eq(&tokens[5], &blob) {
        return String::from_str(url);
    }
    let tree = chars_of("tree");
    let branch_chars = chars_of(branch);
    tokens.set(5, tree);
    tokens.set(6, branch_chars);
    assert(tokens@.map_values(|p: Vec<char>| p@) =~= t.update(5, "tree"@).update(6, branch@));
    let sep = chars_of("/");
    let joined = join_chars(&tokens, &sep);
    string_of(joined.as_slice())
}

fn vec_chars_eq(a: &Vec<char>, b: &Vec<char>) -> (r: bool)
    ensures
        r == (a@ == b@),
{
    if a.len() != b.len() {
        return false;
    }
    let mut i: usize = 0;
    while i < a.len()
        invariant
            a@.len() == b@.len(),
            i <= a@.len(),
            forall|k: int| 0 <= k < i ==> a@[k] == b@[k],
        decreases a.len() - i,
    {
        if a[i] != b[i] {
            return false;
        }
        i = i + 1;
    }
    assert(a@ =~= b@);
    true
}

/// The url a search result is published under, before it points into a
/// branch.
pub fn found_url_of(item: &GithubSearchItem) -> (r: String)
    ensures
        r@ == found_url(item.path@, item.repository.html_url@, item.html_url@),
{
    proof {
        reveal_strlit("Move.toml");
        reveal_strlit("/Move.toml");
        reveal_strlit("");
    }
    let pv = chars_of(item.path.as_str());
    let top = chars_of("Move.toml");
    if vec_chars_eq(&pv, &top) {
        item.repository.html_url.clone()
    } else {
        let u = replace_str(item.html_url.as_str(), "/Move.toml", "");
        assert(""@ =~= Seq::<char>::empty());
        u
    }
}

/// Whether `scrape_item` is out of reach for a search result.
pub fn scrape_would_panic(item: &GithubSearchItem) -> (b: bool)
    ensures
        b == beautify_panics(found_url(item.path@, item.repository.html_url@, item.html_url@)),
{
    let url = found_url_of(item);
    beautify_would_panic(url.as_str())
}

/// The data of a package found by the search, from what its repository
/// gave (`data`, whose `url` holds the default branch) and the search result.
pub fn scrape_item(data: GithubRepoData, item: &GithubSearchItem) -> (r: GithubRepoData)
    requires
        !beautify_panics(found_url(item.path@, item.repository.html_url@, item.html_url@)),
    ensures
        r@ == scraped(data@, item.path@, item.repository.html_url@, item.html_url@, item.url@),
{
    proof {
        reveal_strlit("master");
        reveal_strlit("ref=");
    }
    let branch = if data.url.unicode_len() == 0 {
        String::from_str("master")
    } else {
        data.url.clone()
    };
    let url = found_url_of(item);
    let url = beautify_url(url.as_str(), branch.as_str());
    let rev = last_piece_of(item.url.as_str(), "ref=");
    GithubRepoData { url, rev, ..data }
}

/// After a failed read of a repository: the attempts left, and whether to
/// report the failure (when none are left). The crawler keeps trying.
pub fn after_failed_attempt(attempts_left: i32) -> (r: (i32, bool))
    requires
        attempts_left > i32::MIN,
    ensures
        r.0 == attempts_left - 1,
        r.1 == (attempts_left - 1 == 0),
{
    let left = attempts_left - 1;
    (left, left == 0)
}

// ------------------------------------------------------------- publishing

/// The first of each package in `s`: an element is kept when no earlier
/// element is the same package.
pub open spec fn first_of_each(s: Seq<GithubRepoDataView>) -> Seq<GithubRepoDataView>
    decreases s.len(),
{
    if s.len() == 0 {
        Seq::empty()
    } else {
        let d = first_of_each(s.drop_last());
        if exists|j: int| 0 <= j < s.len() - 1 && same_package(#[trigger] s[j], s.last()) {
            d
        } else {
            d.push(s.last())
        }
    }
}

/// The packages the crawler publishes: the first of each package found,
/// when its version is a semantic version.
pub open spec fn to_publish(s: Seq<GithubRepoDataView>) -> Seq<GithubRepoDataView> {
    first_of_each(s).filter(|d: GithubRepoDataView| semver_accepts(d.version))
}

/// The packages found that the crawler publishes, in the order found.
pub fn packages_to_publish(found: &Vec<GithubRepoData>) -> (r: Vec<GithubRepoData>)
    ensures
        r@.map_values(|d: GithubRepoData| d@) == to_publish(found@.map_values(|d: GithubRepoData| d@)),
{
    let ghost views = found@.map_values(|d: GithubRepoData| d@);
    let mut kept: Vec<GithubRepoData> = Vec::new();
    let mut i: usize = 0;
    while i < found.len()
        invariant
            i <= found@.len(),
            views == found@.map_values(|d: GithubRepoData| d@),
            kept@.map_values(|d: GithubRepoData| d@) == first_of_each(views.take(i as int)),
        decreases found.len() - i,
    {
        let ghost pre = views.take(i as int);
        assert(views.take(i + 1).drop_last() =~= pre);
        let mut seen = false;
        let mut j: usize = 0;
        while j < i
            invariant
                j <= i < found@.len(),
                views == found@.map_values(|d: GithubRepoData| d@),
                seen == exists|k: int| 0 <= k < j && same_package(#[trigger] views[k], views[i as int]),
            decreases i - j,
        {
            assert(views[j as int] == found@[j as int]@);
            assert(views[i as int] == found@[i as int]@);
            if found[j].same_package_as(&found[i]) {
                seen = true;
            }
            j = j + 1;
        }
        let ghost last = views.take(i + 1);
        assert(last.last() == views[i as int]);
        assert(seen == exists|k: int| 0 <= k < last.len() - 1 && same_package(#[trigger] last[k], last.last())) by {
            if seen {
                let k = choose|k: int| 0 <= k < i && same_package(#[trigger] views[k], views[i as int]);
                assert(last[k] == views[k]);
            }
            if exists|k: int| 0 <= k < last.len() - 1 && same_package(#[trigger] last[k], last.last()) {
                let k = choose|k: int| 0 <= k < last.len() - 1 && same_package(#[trigger] last[k], last.last());
                assert(last[k] == views[k]);
            }
        }
        if !seen {
            kept.push(found[i].copy());
        }
        assert(kept@.map_values(|d: GithubRepoData| d@) =~= first_of_each(last));
        i = i + 1;
    }
    assert(views.take(found@.len() as int) =~= views);
    let ghost firsts = kept@.map_values(|d: GithubRepoData| d@);
    let mut r: Vec<GithubRepoData> = Vec::new();
    let mut k: usize = 0;
    while k < kept.len()
        invariant
            k <= kept@.len(),
            firsts == kept@.map_values(|d: GithubRepoData| d@),
            r@.map_values(|d: GithubRepoData| d@) == firsts.take(k as int).filter(
                |d: GithubRepoDataView| semver_accepts(d.version),
            ),
        decreases kept.len() - k,
    {
        assert(firsts.take(k + 1).drop_last() =~= firsts.take(k as int));
        if is_version_valid(kept[k].version.as_str()) {
            r.push(kept[k].copy());
        }
        proof {
            let p = firsts.take(k + 1);
            assert(p.filter(|d: GithubRepoDataView| semver_accepts(d.version)) == p.drop_last().filter(
                |d: GithubRepoDataView| semver_accepts(d.version),
            ) + (if semver_accepts(p.last().version) { seq![p.last()] } else { Seq::empty() })) by {
                reveal(Seq::filter);
                assert(p.drop_last() =~= firsts.take(k as int));
            }
        }
        assert(r@.map_values(|d: GithubRepoData| d@) =~= firsts.take(k + 1).filter(
            |d: GithubRepoDataView| semver_accepts(d.version),
        ));
        k = k + 1;
    }
    assert(firsts.take(kept@.len() as int) =~= firsts);
    r
}

/// No two elements of `s` are the same package.
pub open spec fn distinct_packages(s: Seq<GithubRepoDataView>) -> bool {
    forall|i: int, j: int| 0 <= i < j < s.len() ==> !same_package(#[trigger] s[i], #[trigger] s[j])
}

/// `s[k]` is the first element of its package in `s`.
pub open spec fn first_of_its_package(s: Seq<GithubRepoDataView>, k: int) -> bool {
    !exists|j: int| 0 <= j < k && same_package(#[trigger] s[j], s[k])
}

proof fn lemma_foe_subset(s: Seq<GithubRepoDataView>)
    ensures
        forall|i: int| 0 <= i < first_of_each(s).len() ==> s.contains(#[trigger] first_of_each(s)[i]),
    decreases s.len(),
{
    if s.len() > 0 {
        let t = s.drop_last();
        let d = first_of_each(t);
        let f = first_of_each(s);
        lemma_foe_subset(t);
        assert forall|i: int| 0 <= i < f.len() implies s.contains(#[trigger] f[i]) by {
            if i < d.len() {
                assert(f[i] == d[i]);
                let k = choose|k: int| 0 <= k < t.len() && t[k] == d[i];
                assert(s[k] == t[k]);
            } else {
                assert(f[i] == s[s.len() - 1]);
            }
        }
    }
}

proof fn lemma_foe_distinct(s: Seq<GithubRepoDataView>)
    ensures
        distinct_packages(first_of_each(s)),
    decreases s.len(),
{
    if s.len() > 0 {
        let t = s.drop_last();
        let last = s.last();
        let d = first_of_each(t);
        let f = first_of_each(s);
        lemma_foe_distinct(t);
        lemma_foe_subset(t);
        if !exists|j: int| 0 <= j < s.len() - 1 && same_package(#[trigger] s[j], s.last()) {
            assert(f == d.push(last));
            assert forall|i: int, j: int| 0 <= i < j < f.len() implies !same_package(
                #[trigger] f[i],
                #[trigger] f[j],
            ) by {
                assert(f[i] == d[i]);
                if j < d.len() {
                    assert(f[j] == d[j]);
                } else {
                    let k = choose|k: int| 0 <= k < t.len() && t[k] == d[i];
                    assert(s[k] == t[k]);
                    assert(f[j] == last);
                }
            }
        }
    }
}

proof fn lemma_foe_firsts(s: Seq<GithubRepoDataView>)
    ensures
        forall|k: int| 0 <= k < s.len() && first_of_its_package(s, k) ==> first_of_each(s).contains(#[trigger] s[k]),
    decreases s.len(),
{
    if s.len() > 0 {
        let t = s.drop_last();
        let d = first_of_each(t);
        let f = first_of_each(s);
        lemma_foe_firsts(t);
        assert forall|k: int| 0 <= k < s.len() && first_of_its_package(s, k) implies f.contains(#[trigger] s[k]) by {
            if k < s.len() - 1 {
                assert(t[k] == s[k]);
                if exists|j: int| 0 <= j < k && same_package(#[trigger] t[j], t[k]) {
                    let j = choose|j: int| 0 <= j < k && same_package(#[trigger] t[j], t[k]);
                    assert(s[j] == t[j]);
                }
                assert(first_of_its_package(t, k));
                let i = choose|i: int| 0 <= i < d.len() && d[i] == t[k];
                if f == d {
                } else {
                    assert(f == d.push(s.last()));
                    assert(f[i] == d[i]);
                }
            } else {
                assert(s.last() == s[k]);
                assert(!exists|j: int| 0 <= j < s.len() - 1 && same_package(#[trigger] s[j], s.last()));
                assert(f == d.push(s.last()));
                assert(f[d.len() as int] == s[k]);
            }
        }
    }
}

proof fn lemma_filter_distinct(f: Seq<GithubRepoDataView>, p: spec_fn(GithubRepoDataView) -> bool)
    requires
        distinct_packages(f),
    ensures
        distinct_packages(f.filter(p)),
    decreases f.len(),
{
    reveal(Seq::filter);
    if f.len() > 0 {
        let t = f.drop_last();
        assert forall|i: int, j: int| 0 <= i < j < t.len() implies !same_package(#[trigger] t[i], #[trigger] t[j]) by {
            assert(t[i] == f[i] && t[j] == f[j]);
        }
        lemma_filter_distinct(t, p);
        let r = t.filter(p);
        if p(f.last()) {
            let q = r.push(f.last());
            assert forall|i: int, j: int| 0 <= i < j < q.len() implies !same_package(#[trigger] q[i], #[trigger] q[j]) by {
                if j == q.len() - 1 {
                    assert(r.contains(r[i]));
                    t.lemma_filter_contains_rev(p, r[i]);
                    let k = choose|k: int| 0 <= k < t.len() && t[k] == r[i];
                    assert(f[k] == t[k]);
                    assert(q[j] == f[f.len() - 1]);
                }
            }
        }
    }
}

/// The crawler publishes each package once, and only what it found with a
/// semantic version: no two packages published are the same package; each
/// one was found and has a semantic version; and the first of each package
/// found is published when its version is a semantic version.
pub proof fn law_crawler_publishes_each_package_once(s: Seq<GithubRepoDataView>)
    ensures
        distinct_packages(to_publish(s)),
        forall|i: int|
            0 <= i < to_publish(s).len() ==> s.contains(#[trigger] to_publish(s)[i]) && semver_accepts(
                to_publish(s)[i].version,
            ),
        forall|k: int|
            0 <= k < s.len() && first_of_its_package(s, k) && semver_accepts(s[k].version) ==> to_publish(
                s,
            ).contains(#[trigger] s[k]),
{
    let pred = |d: GithubRepoDataView| semver_accepts(d.version);
    let f = first_of_each(s);
    lemma_foe_subset(s);
    lemma_foe_distinct(s);
    lemma_foe_firsts(s);
    lemma_filter_distinct(f, pred);
    assert forall|i: int| 0 <= i < to_publish(s).len() implies s.contains(#[trigger] to_publish(s)[i])
        && semver_accepts(to_publish(s)[i].version) by {
        f.lemma_filter_pred(pred, i);
        assert(f.filter(pred).contains(f.filter(pred)[i]));
        f.lemma_filter_contains_rev(pred, f.filter(pred)[i]);
        let k = choose|k: int| 0 <= k < f.len() && f[k] == f.filter(pred)[i];
        assert(s.contains(f[k]));
    }
    assert forall|k: int| 0 <= k < s.len() && first_of_its_package(s, k) && semver_accepts(s[k].version)
        implies to_publish(s).contains(#[trigger] s[k]) by {
        assert(f.contains(s[k]));
        let i = choose|i: int| 0 <= i < f.len() && f[i] == s[k];
        f.lemma_filter_contains(pred, i);
    }
}

} // verus!
