//! Listing and searching packages: sort fields and orders, the order
//! clause, the search terms, pages and what a listing page displays.

use vstd::prelude::*;
use crate::text::{chars_of, string_of, split_chars, join_chars, split_on, join_with, concat3, concat_str};

verus! {

/// Packages shown per page.
pub const PACKAGES_PER_PAGE: i64 = 10;

/// What packages are sorted by.
#[derive(Clone, Copy, Debug, PartialEq, Eq, Structural)]
pub enum PackageSortField {
    Name,
    Description,
    MostDownloads,
    NewlyAdded,
    RecentlyUpdated,
}

/// The name of a sort field in pages and queries.
pub open spec fn field_name(f: PackageSortField) -> Seq<char> {
    match f {
        PackageSortField::Name => "name"@,
        PackageSortField::Description => "description"@,
        PackageSortField::MostDownloads => "most_downloads"@,
        PackageSortField::NewlyAdded => "newly_added"@,
        PackageSortField::RecentlyUpdated => "recently_updated"@,
    }
}

/// The column a sort field sorts by.
pub open spec fn column_name(f: PackageSortField) -> Seq<char> {
    match f {
        PackageSortField::Name => "name"@,
        PackageSortField::Description => "description"@,
        PackageSortField::MostDownloads => "total_downloads_count"@,
        PackageSortField::NewlyAdded => "created_at"@,
        PackageSortField::RecentlyUpdated => "updated_at"@,
    }
}

impl PackageSortField {
    /// The column this field sorts by.
    pub fn to_column_name(&self) -> (r: String)
        ensures
            r@ == column_name(*self),
    {
        String::from_str(
            match self {
                PackageSortField::Name => "name",
                PackageSortField::Description => "description",
                PackageSortField::MostDownloads => "total_downloads_count",
                PackageSortField::NewlyAdded => "created_at",
                PackageSortField::RecentlyUpdated => "updated_at",
            },
        )
    }

    /// The field's name as pages show it.
    pub fn to_string(&self) -> (r: String)
        ensures
            r@ == field_name(*self),
    {
        String::from_str(
            match self {
                PackageSortField::Name => "name",
                PackageSortField::Description => "description",
                PackageSortField::MostDownloads => "most_downloads",
                PackageSortField::NewlyAdded => "newly_added",
                PackageSortField::RecentlyUpdated => "recently_updated",
            },
        )
    }
}

/// The direction of a sort.
#[derive(Clone, Copy, Debug, PartialEq, Eq, Structural)]
pub enum PackageSortOrder {
    Asc,
    Desc,
}

pub open spec fn direction(o: PackageSortOrder) -> Seq<char> {
    match o {
        PackageSortOrder::Asc => "ASC"@,
        PackageSortOrder::Desc => "DESC"@,
    }
}

impl PackageSortOrder {
    /// The direction's keyword in a query.
    pub fn to_order_direction(&self) -> (r: String)
        ensures
            r@ == direction(*self),
    {
        String::from_str(
            match self {
                PackageSortOrder::Asc => "ASC",
                PackageSortOrder::Desc => "DESC",
            },
        )
    }
}

/// The clause that orders packages: `packages.<column> <DIRECTION>`.
pub open spec fn order_clause(f: PackageSortField, o: PackageSortOrder) -> Seq<char> {
    "packages."@ + column_name(f) + " "@ + direction(o)
}

pub fn order_query(field: PackageSortField, order: PackageSortOrder) -> (r: String)
    ensures
        r@ == order_clause(field, order),
{
    let column = field.to_column_name();
    let dir = order.to_order_direction();
    let a = concat3("packages.", column.as_str(), " ");
    concat_str(a.as_str(), dir.as_str())
}

/// The text search of a query: its words (split at each space) joined by
/// `" & "`.
pub open spec fn search_terms(q: Seq<char>) -> Seq<char> {
    join_with(split_on(q, ' '), " & "@)
}

pub fn search_terms_of(query: &str) -> (r: String)
    ensures
        r@ == search_terms(query@),
{
    let q = chars_of(query);
    let words = split_chars(&q, ' ');
    let sep = chars_of(" & ");
    let joined = join_chars(&words, &sep);
    string_of(joined.as_slice())
}

/// The version a package page shows: the one asked for, or the latest
/// (`None`) when none or an empty one is asked for.
pub fn requested_version(param: Option<&str>) -> (r: Option<String>)
    ensures
        match param {
            Some(v) => if v@.len() == 0 {
                r is None
            } else {
                r matches Some(s) && s@ == v@
            },
            None => r is None,
        },
{
    match param {
        Some(v) => if v.unicode_len() == 0 {
            None
        } else {
            Some(String::from_str(v))
        },
        None => None,
    }
}

/// The pattern that finds names holding `text` anywhere.
pub fn like_pattern(text: &str) -> (r: String)
    ensures
        r@ == "%"@ + text@ + "%"@,
{
    concat3("%", text, "%")
}

/// How versions of a package are listed.
#[derive(Clone, Copy, Debug, PartialEq, Eq, Structural)]
pub enum PackageVersionSort {
    Latest,
    Oldest,
    MostDownloads,
}

/// The version order a page asks for: `oldest`, `most_downloads`, or else
/// the latest first.
pub open spec fn version_sort_of(s: Seq<char>) -> PackageVersionSort {
    if s == "oldest"@ {
        PackageVersionSort::Oldest
    } else if s == "most_downloads"@ {
        PackageVersionSort::MostDownloads
    } else {
        PackageVersionSort::Latest
    }
}

/// The version order a page asks for; `None` (no parameter) is `latest`.
pub fn version_sort(sort_type: Option<&str>) -> (r: PackageVersionSort)
    ensures
        r == match sort_type {
            Some(s) => version_sort_of(s@),
            None => PackageVersionSort::Latest,
        },
{
    match sort_type {
        None => PackageVersionSort::Latest,
        Some(s) => {
            let v = chars_of(s);
            let oldest = chars_of("oldest");
            let most = chars_of("most_downloads");
            if same_chars(&v, &oldest) {
                PackageVersionSort::Oldest
            } else if same_chars(&v, &most) {
                PackageVersionSort::MostDownloads
            } else {
                PackageVersionSort::Latest
            }
        },
    }
}

fn same_chars(a: &Vec<char>, b: &Vec<char>) -> (r: bool)
    ensures
        r == (a@ == b@),
{
    if a.len() != b.len() {
        return false;
    }
    let mut i: usize = 0;
    while i < a.len()
        invariant
            a@.len() == b@.len(),
            i <= a@.len(),
            forall|j: int| 0 <= j < i ==> a@[j] == b@[j],
        decreases a.len() - i,
    {
        if a[i] != b[i] {
            return false;
        }
        i = i + 1;
    }
    assert(a@ =~= b@);
    true
}

/// The field and order of a listing: by name unless asked; ascending by
/// name and descending by any other field unless asked.
pub open spec fn listing_order(field: Option<PackageSortField>, order: Option<PackageSortOrder>) -> (
    PackageSortField,
    PackageSortOrder,
) {
    let f = match field {
        Some(f) => f,
        None => PackageSortField::Name,
    };
    let o = match order {
        Some(o) => o,
        None => if f == PackageSortField::Name {
            PackageSortOrder::Asc
        } else {
            PackageSortOrder::Desc
        },
    };
    (f, o)
}

/// A listing is by the field asked, by name when none is; in the order
/// asked; with no order asked, it is ascending exactly when it is by name,
/// and descending (newest, most downloaded, latest updated first) by any
/// other field.
pub proof fn law_listing_order_defaults(field: Option<PackageSortField>, order: Option<PackageSortOrder>)
    ensures
        field matches Some(f) ==> listing_order(field, order).0 == f,
        field is None ==> listing_order(field, order).0 == PackageSortField::Name,
        order matches Some(o) ==> listing_order(field, order).1 == o,
        order is None ==> (listing_order(field, order).1 == PackageSortOrder::Asc <==> listing_order(field, order).0
            == PackageSortField::Name),
        order is None ==> (field matches Some(f) && f != PackageSortField::Name ==> listing_order(field, order).1
            == PackageSortOrder::Desc),
{
}

pub fn resolve_listing_order(field: Option<PackageSortField>, order: Option<PackageSortOrder>) -> (r: (
    PackageSortField,
    PackageSortOrder,
))
    ensures
        r == listing_order(field, order),
        field matches Some(f) ==> r.0 == f,
        field is None ==> r.0 == PackageSortField::Name,
        order matches Some(o) ==> r.1 == o,
        order is None ==> (r.1 == PackageSortOrder::Asc <==> r.0 == PackageSortField::Name),
{
    let f = match field {
        Some(f) => f,
        None => PackageSortField::Name,
    };
    let o = match order {
        Some(o) => o,
        None => if f == PackageSortField::Name {
            PackageSortOrder::Asc
        } else {
            PackageSortOrder::Desc
        },
    };
    (f, o)
}

/// The refusal of a page before the first.
pub open spec fn invalid_page() -> Seq<char> {
    "Invalid page number."@
}

/// The page and page size of a listing: the first page and
/// `PACKAGES_PER_PAGE` unless asked; both must be at least one.
pub fn resolve_page(page: Option<i64>, per_page: Option<i64>) -> (r: Result<(i64, i64), String>)
    ensures
        ({
            let p = match page {
                Some(p) => p,
                None => 1,
            };
            let n = match per_page {
                Some(n) => n,
                None => PACKAGES_PER_PAGE,
            };
            &&& r is Ok <==> (p >= 1 && n >= 1)
            &&& r matches Ok(v) ==> v == (p, n)
            &&& r matches Err(m) ==> m@ == invalid_page()
        }),
{
    let p = match page {
        Some(p) => p,
        None => 1,
    };
    let n = match per_page {
        Some(n) => n,
        None => PACKAGES_PER_PAGE,
    };
    if p < 1 || n < 1 {
        Err(String::from_str("Invalid page number."))
    } else {
        Ok((p, n))
    }
}

/// The first and last positions a listing page displays: `shown` packages
/// from position `(page - 1) * PACKAGES_PER_PAGE + 1`.
pub open spec fn display_bounds(page: int, shown: int) -> (int, int) {
    let start = (page - 1) * 10 + 1;
    (start, start + shown - 1)
}

pub fn display_range(current_page: i64, shown: usize) -> (r: (i64, usize))
    requires
        1 <= current_page,
        (current_page - 1) * 10 + 1 <= i64::MAX,
        (current_page - 1) * 10 + 1 + shown <= usize::MAX,
    ensures
        r.0 == display_bounds(current_page as int, shown as int).0,
        r.1 == display_bounds(current_page as int, shown as int).1,
{
    let start = (current_page - 1) * PACKAGES_PER_PAGE + 1;
    let first: usize = start as usize;
    (start, first + shown - 1)
}

/// An account's total downloads: the sum over its packages, zero when it
/// owns none.
pub fn total_downloads(sum: Option<i64>) -> (r: i64)
    ensures
        r == match sum {
            Some(s) => s,
            None => 0,
        },
{
    match sum {
        Some(s) => s,
        None => 0,
    }
}

} // verus!
