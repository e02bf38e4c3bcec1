//! The data of a package's badge: its name and downloads, each version's
//! downloads, and the latest version, the greatest in the order of text.

use vstd::prelude::*;

verus! {

/// The order of text (`str`'s `<`): by the first character that differs,
/// a proper prefix first. Comparing code points orders UTF-8 text as its
/// bytes do.
pub open spec fn lex_lt(a: Seq<char>, b: Seq<char>) -> bool
    decreases a.len(),
{
    if a.len() == 0 {
        b.len() > 0
    } else if b.len() == 0 {
        false
    } else if a[0] != b[0] {
        (a[0] as u32) < (b[0] as u32)
    } else {
        lex_lt(a.drop_first(), b.drop_first())
    }
}

/// No text comes before itself.
pub proof fn lemma_lex_irreflexive(a: Seq<char>)
    ensures
        !lex_lt(a, a),
    decreases a.len(),
{
    if a.len() > 0 {
        lemma_lex_irreflexive(a.drop_first());
    }
}

/// The order of text is transitive.
pub proof fn lemma_lex_transitive(a: Seq<char>, b: Seq<char>, c: Seq<char>)
    requires
        lex_lt(a, b),
        lex_lt(b, c),
    ensures
        lex_lt(a, c),
    decreases a.len(),
{
    if a.len() > 0 && b.len() > 0 && c.len() > 0 {
        if a[0] == b[0] && b[0] == c[0] {
            lemma_lex_transitive(a.drop_first(), b.drop_first(), c.drop_first());
        }
    }
}

/// The greatest of `first` and the texts of `vs`; of equal texts the
/// earliest.
pub open spec fn latest_of(first: Seq<char>, vs: Seq<Seq<char>>) -> Seq<char>
    decreases vs.len(),
{
    if vs.len() == 0 {
        first
    } else {
        let m = latest_of(first, vs.drop_last());
        if lex_lt(m, vs.last()) {
            vs.last()
        } else {
            m
        }
    }
}

/// The latest version is `first` or one of `vs`, and no text of `vs` comes
/// after it.
pub proof fn lemma_latest_is_greatest(first: Seq<char>, vs: Seq<Seq<char>>)
    ensures
        latest_of(first, vs) == first || vs.contains(latest_of(first, vs)),
        !lex_lt(latest_of(first, vs), first),
        forall|i: int| 0 <= i < vs.len() ==> !lex_lt(latest_of(first, vs), #[trigger] vs[i]),
    decreases vs.len(),
{
    if vs.len() == 0 {
        lemma_lex_irreflexive(first);
    } else {
        let rest = vs.drop_last();
        let m = latest_of(first, rest);
        let last = vs.last();
        lemma_latest_is_greatest(first, rest);
        assert forall|i: int| 0 <= i < rest.len() implies vs[i] == rest[i] by {}
        if lex_lt(m, last) {
            assert(vs[vs.len() - 1] == last);
            assert forall|i: int| 0 <= i < vs.len() implies !lex_lt(last, #[trigger] vs[i]) by {
                if i < vs.len() - 1 {
                    assert(vs[i] == rest[i]);
                    if lex_lt(last, vs[i]) {
                        lemma_lex_transitive(m, last, vs[i]);
                    }
                } else {
                    lemma_lex_irreflexive(last);
                }
            }
            if lex_lt(last, first) {
                lemma_lex_transitive(m, last, first);
            }
        } else {
            assert forall|i: int| 0 <= i < vs.len() implies !lex_lt(m, #[trigger] vs[i]) by {
                if i < vs.len() - 1 {
                    assert(vs[i] == rest[i]);
                }
            }
            if m != first {
                let k = choose|k: int| 0 <= k < rest.len() && rest[k] == m;
                assert(vs[k] == m);
            }
        }
    }
}

/// The latest version a badge shows is one of the package's versions, and
/// none of its versions comes after it.
pub proof fn law_badge_latest_is_greatest(records: Seq<(String, i32, String, i32)>)
    requires
        records.len() > 0,
    ensures
        record_versions(records).contains(latest_of(records[0].2@, record_versions(records))),
        forall|i: int|
            0 <= i < records.len() ==> !lex_lt(
                latest_of(records[0].2@, record_versions(records)),
                #[trigger] records[i].2@,
            ),
{
    let vs = record_versions(records);
    lemma_latest_is_greatest(records[0].2@, vs);
    assert(vs[0] == records[0].2@);
    assert forall|i: int| 0 <= i < records.len() implies !lex_lt(
        latest_of(records[0].2@, vs),
        #[trigger] records[i].2@,
    ) by {
        assert(vs[i] == records[i].2@);
    }
}

/// Whether `b` comes after `a` in the order of text.
pub fn text_after(b: &str, a: &str) -> (r: bool)
    ensures
        r == lex_lt(a@, b@),
{
    let av = crate::text::chars_of(a);
    let bv = crate::text::chars_of(b);
    let mut i: usize = 0;
    assert(av@.skip(0) =~= av@);
    assert(bv@.skip(0) =~= bv@);
    while i < av.len() && i < bv.len()
        invariant
            av@ == a@,
            bv@ == b@,
            i <= av@.len(),
            i <= bv@.len(),
            lex_lt(av@, bv@) == lex_lt(av@.skip(i as int), bv@.skip(i as int)),
        decreases av.len() - i,
    {
        let x = av[i];
        let y = bv[i];
        assert(av@.skip(i as int)[0] == x);
        assert(bv@.skip(i as int)[0] == y);
        if x != y {
            return (x as u32) < (y as u32);
        }
        assert(av@.skip(i as int).drop_first() =~= av@.skip(i as int + 1));
        assert(bv@.skip(i as int).drop_first() =~= bv@.skip(i as int + 1));
        i = i + 1;
    }
    av.len() <= i && i < bv.len()
}

/// A version's downloads on the badge.
#[derive(Debug)]
pub struct PackageBadgeVersion {
    pub version: String,
    pub download_counts: i32,
}

/// The badge of a package.
#[derive(Debug)]
pub struct PackageBadgeRespond {
    pub package_name: String,
    pub total_download_counts: i32,
    pub latest_version: String,
    pub versions: Vec<PackageBadgeVersion>,
}

/// The versions named by badge records (package name, package downloads,
/// version, version downloads).
pub open spec fn record_versions(records: Seq<(String, i32, String, i32)>) -> Seq<Seq<char>> {
    records.map_values(|t: (String, i32, String, i32)| t.2@)
}

impl PackageBadgeRespond {
    /// The badge from the records of a package's versions: the package's
    /// name and downloads are read from the first record.
    pub fn from(tuples: Vec<(String, i32, String, i32)>) -> (r: PackageBadgeRespond)
        requires
            tuples@.len() > 0,
        ensures
            r.package_name@ == tuples@[0].0@,
            r.total_download_counts == tuples@[0].1,
            r.versions@.len() == tuples@.len(),
            forall|i: int|
                0 <= i < tuples@.len() ==> #[trigger] r.versions@[i].version@ == tuples@[i].2@
                    && r.versions@[i].download_counts == tuples@[i].3,
            r.latest_version@ == latest_of(tuples@[0].2@, record_versions(tuples@)),
    {
        let ghost vs = record_versions(tuples@);
        let mut max_version: String = tuples[0].2.clone();
        let mut versions: Vec<PackageBadgeVersion> = Vec::new();
        let mut i: usize = 0;
        while i < tuples.len()
            invariant
                i <= tuples@.len(),
                vs == record_versions(tuples@),
                max_version@ == latest_of(tuples@[0].2@, vs.take(i as int)),
                versions@.len() == i,
                forall|j: int|
                    0 <= j < i ==> #[trigger] versions@[j].version@ == tuples@[j].2@
                        && versions@[j].download_counts == tuples@[j].3,
            decreases tuples.len() - i,
        {
            let record = &tuples[i];
            assert(vs.take(i as int + 1).drop_last() =~= vs.take(i as int));
            assert(vs.take(i as int + 1).last() == record.2@);
            if text_after(record.2.as_str(), max_version.as_str()) {
                max_version = record.2.clone();
            }
            let ghost before = versions@;
            versions.push(PackageBadgeVersion { version: record.2.clone(), download_counts: record.3 });
            assert forall|j: int| 0 <= j < i + 1 implies #[trigger] versions@[j].version@ == tuples@[j].2@
                && versions@[j].download_counts == tuples@[j].3 by {
                if j < i {
                    assert(versions@[j] == before[j]);
                }
            }
            i = i + 1;
        }
        assert(vs.take(tuples@.len() as int) =~= vs);
        let r = PackageBadgeRespond {
            package_name: tuples[0].0.clone(),
            total_download_counts: tuples[0].1,
            latest_version: max_version,
            versions,
        };
        assert forall|j: int| 0 <= j < tuples@.len() implies #[trigger] r.versions@[j].version@ == tuples@[j].2@
            && r.versions@[j].download_counts == tuples@[j].3 by {
            assert(versions@[j].version@ == tuples@[j].2@);
        }
        r
    }
}

/// The badge of a package whose version records were found; none (the
/// badge is not found) without records.
pub fn badge_reply(records: Vec<(String, i32, String, i32)>) -> (r: Option<PackageBadgeRespond>)
    ensures
        r is Some <==> records@.len() > 0,
        r matches Some(b) ==> b.package_name@ == records@[0].0@ && b.total_download_counts == records@[0].1
            && b.latest_version@ == latest_of(records@[0].2@, record_versions(records@))
            && b.versions@.len() == records@.len()
            && forall|i: int|
            0 <= i < records@.len() ==> #[trigger] b.versions@[i].version@ == records@[i].2@
                && b.versions@[i].download_counts == records@[i].3,
{
    if records.len() == 0 {
        None
    } else {
        Some(PackageBadgeRespond::from(records))
    }
}

} // verus!
