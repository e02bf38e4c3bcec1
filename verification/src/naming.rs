//! Package names: the slug under which a package is addressed and the
//! rules a published package's name and version must meet.

use vstd::prelude::*;
use crate::text::{chars_of, string_of, concat3};
use convert_case::{Boundary, Case, Casing};

verus! {

// ---------------------------------------------------------------- slugs

/// A character that may appear in a slug.
pub open spec fn is_slug_char(c: char) -> bool {
    ('a' <= c && c <= 'z') || ('0' <= c && c <= '9') || c == '-'
}

/// A URL-safe slug: lower-case ASCII letters, digits and single hyphens,
/// never starting or ending with a hyphen.
pub open spec fn is_url_slug(s: Seq<char>) -> bool {
    &&& forall|i: int| 0 <= i < s.len() ==> is_slug_char(#[trigger] s[i])
    &&& s.len() > 0 ==> s[0] != '-' && s[s.len() - 1] != '-'
    &&& forall|i: int| 0 <= i < s.len() - 1 ==> !(#[trigger] s[i] == '-' && s[i + 1] == '-')
}

/// One character of an ASCII input to `slug::slugify`: letters and digits
/// are kept (letters lower-cased), any other character becomes a hyphen
/// unless the previous output character is one (or there is none yet).
pub open spec fn slug_step(acc: (Seq<char>, bool), c: char) -> (Seq<char>, bool) {
    if ('a' <= c && c <= 'z') || ('0' <= c && c <= '9') {
        (acc.0.push(c), false)
    } else if 'A' <= c && c <= 'Z' {
        (acc.0.push(((c as u32) + 32) as char), false)
    } else if !acc.1 {
        (acc.0.push('-'), true)
    } else {
        acc
    }
}

pub open spec fn slug_scan(s: Seq<char>) -> (Seq<char>, bool)
    decreases s.len(),
{
    if s.len() == 0 {
        (Seq::empty(), true)
    } else {
        slug_step(slug_scan(s.drop_last()), s.last())
    }
}

/// What `slug::slugify` returns for an ASCII input.
pub open spec fn ascii_slug(s: Seq<char>) -> Seq<char> {
    let r = slug_scan(s).0;
    if r.len() > 0 && r.last() == '-' {
        r.drop_last()
    } else {
        r
    }
}

/// The result of `slug::slugify` on a string.
pub uninterp spec fn slugify_result(s: Seq<char>) -> Seq<char>;

/// `slug::slugify`. Its documentation and source show that the result is a
/// URL-safe slug, and the source shows what it is for an ASCII input
/// (`ascii_slug`). For other characters the crate maps each through
/// `deunicode`'s tables, which are not stated here.
#[verifier::external_body]
fn slugify(s: &str) -> (r: String)
    ensures
        r@ == slugify_result(s@),
        is_url_slug(r@),
        vstd::utf8::is_ascii_chars(s@) ==> r@ == ascii_slug(s@),
{
    slug::slugify(s)
}

/// The result of converting a name from Pascal case to kebab case with
/// `convert_case`, where an upper-case letter followed by a digit is not a
/// word boundary.
pub uninterp spec fn kebab_from_pascal(s: Seq<char>) -> Seq<char>;

/// `convert_case::Casing`: `from_case(Case::Pascal)`, then
/// `without_boundaries(&[Boundary::UpperDigit])`, then
/// `to_case(Case::Kebab)`, one conversion of the crate. Its result is only
/// named here.
#[verifier::external_body]
fn kebab_case(s: &str) -> (r: String)
    ensures
        r@ == kebab_from_pascal(s@),
{
    s.from_case(Case::Pascal).without_boundaries(&[Boundary::UpperDigit]).to_case(Case::Kebab)
}

/// The slug of a package name: its kebab-case form, slugified.
pub open spec fn package_slug(name: Seq<char>) -> Seq<char> {
    slugify_result(kebab_from_pascal(name))
}

/// The slug under which a package with this name is stored.
pub fn slugify_package_name(name: &str) -> (r: String)
    ensures
        r@ == package_slug(name@),
        is_url_slug(r@),
{
    let kebab = kebab_case(name);
    slugify(kebab.as_str())
}

/// The slug of a text as `slug::slugify` makes it.
pub fn slug_of(text: &str) -> (r: String)
    ensures
        r@ == slugify_result(text@),
        is_url_slug(r@),
{
    slugify(text)
}

/// The slug tried after `slug` collided: `slug`, a hyphen and `suffix`.
pub fn slug_with_suffix(slug: &str, suffix: &str) -> (r: String)
    ensures
        r@ == slug@ + seq!['-'] + suffix@,
{
    proof {
        reveal_strlit("-");
    }
    concat3(slug, "-", suffix)
}

/// The letter or digit numbered `k` (below 62): upper-case letters, then
/// lower-case letters, then digits.
pub open spec fn alnum_char(k: nat) -> char {
    if k < 26 {
        ((k + 65) as u8) as char
    } else if k < 52 {
        ((k + 71) as u8) as char
    } else {
        ((k - 4) as u8) as char
    }
}

/// The four letters or digits a random number `n` gives for a slug's
/// suffix: its last four digits in base 62.
pub open spec fn suffix_chars(n: nat) -> Seq<char> {
    seq![
        alnum_char(n % 62),
        alnum_char((n / 62) % 62),
        alnum_char((n / 3844) % 62),
        alnum_char((n / 238328) % 62),
    ]
}

/// A suffix is four ASCII letters or digits.
pub proof fn law_suffix_is_four_alphanumerics(n: nat)
    ensures
        suffix_chars(n).len() == 4,
        forall|i: int| 0 <= i < 4 ==> is_alnum(#[trigger] suffix_chars(n)[i]),
{
    assert forall|k: nat| k < 62 implies is_alnum(#[trigger] alnum_char(k)) by {}
    assert(n % 62 < 62);
    assert((n / 62) % 62 < 62);
    assert((n / 3844) % 62 < 62);
    assert((n / 238328) % 62 < 62);
}

fn alnum_char_of(k: u64) -> (c: char)
    requires
        k < 62,
    ensures
        c == alnum_char(k as nat),
{
    if k < 26 {
        ((k + 65) as u8) as char
    } else if k < 52 {
        ((k + 71) as u8) as char
    } else {
        ((k - 4) as u8) as char
    }
}

/// The suffix a random number gives.
pub fn suffix_of(n: u64) -> (r: String)
    ensures
        r@ == suffix_chars(n as nat),
{
    let mut v: Vec<char> = Vec::new();
    v.push(alnum_char_of(n % 62));
    v.push(alnum_char_of((n / 62) % 62));
    v.push(alnum_char_of((n / 3844) % 62));
    v.push(alnum_char_of((n / 238328) % 62));
    assert(v@ =~= suffix_chars(n as nat));
    string_of(v.as_slice())
}

// ------------------------------------------------------ name and version

/// An ASCII letter or digit.
pub open spec fn is_alnum(c: char) -> bool {
    ('a' <= c && c <= 'z') || ('A' <= c && c <= 'Z') || ('0' <= c && c <= '9')
}

/// A package name made of letters and digits joined by hyphens or
/// underscores: it starts and ends with a letter or digit and holds nothing
/// else.
pub open spec fn is_valid_package_name(s: Seq<char>) -> bool {
    &&& s.len() > 0
    &&& is_alnum(s[0])
    &&& is_alnum(s[s.len() - 1])
    &&& forall|i: int| 0 <= i < s.len() ==> is_alnum(#[trigger] s[i]) || s[i] == '-' || s[i] == '_'
}

/// The pattern that package names are matched against.
pub open spec fn name_pattern() -> Seq<char> {
    "[a-zA-Z0-9]([-_]*[a-zA-Z0-9])*"@
}

/// The text of the leftmost-first match of a regular expression in a
/// string, if any.
pub uninterp spec fn regex_first_match(pattern: Seq<char>, s: Seq<char>) -> Option<Seq<char>>;

/// `regex::Regex::new(pattern)` and `Regex::captures(s)`, giving the text of
/// the whole match. The crate documents leftmost-first matching with greedy
/// repetition; for the package-name pattern the match found is then the
/// whole of `s` exactly when `s` matches the pattern from end to end, which
/// is the second clause. Which text is matched otherwise is left unsaid.
#[verifier::external_body]
fn first_match(pattern: &str, s: &str) -> (r: Option<String>)
    requires
        pattern@ == name_pattern(),
    ensures
        r is Some <==> regex_first_match(pattern@, s@) is Some,
        r is Some ==> regex_first_match(pattern@, s@) == Some(r->0@),
        (r is Some && r->0@ == s@) <==> is_valid_package_name(s@),
{
    let re = regex::Regex::new(pattern).unwrap();
    re.captures(s).map(|c| c.get(0).unwrap().as_str().to_string())
}

/// Whether `semver::Version::parse` accepts a version string.
pub uninterp spec fn semver_accepts(s: Seq<char>) -> bool;

/// `semver::Version::parse(s).is_ok()`: whether the string is a semantic
/// version. The grammar the crate applies is only named here.
#[verifier::external_body]
fn semver_parses(s: &str) -> (b: bool)
    ensures
        b == semver_accepts(s@),
{
    semver::Version::parse(s).is_ok()
}

/// The hint given for a package name that does not match the pattern.
pub open spec fn name_hint() -> Seq<char> {
    "Package name should only contain alphanumeric characters connected by hyphens or underscores"@
}

/// The hint given for a version that is not a semantic version.
pub open spec fn version_hint() -> Seq<char> {
    "Package version should adhere to semantic versioning (see https://semver.org)"@
}

/// The hints for a package name and version, in this order.
pub open spec fn expected_hints(name: Seq<char>, version: Seq<char>) -> Seq<Seq<char>> {
    (if is_valid_package_name(name) { Seq::empty() } else { seq![name_hint()] }) + (if semver_accepts(
        version,
    ) {
        Seq::empty()
    } else {
        seq![version_hint()]
    })
}

/// Whether a package name is acceptable.
pub fn is_name_valid(package_name: &str) -> (b: bool)
    ensures
        b == is_valid_package_name(package_name@),
{
    let pattern = "[a-zA-Z0-9]([-_]*[a-zA-Z0-9])*";
    proof {
        reveal_strlit("[a-zA-Z0-9]([-_]*[a-zA-Z0-9])*");
    }
    match first_match(pattern, package_name) {
        Some(m) => {
            let pv = chars_of(package_name);
            let mv = chars_of(m.as_str());
            vec_eq(&mv, &pv)
        },
        None => false,
    }
}

/// Whether a version string is a semantic version.
pub fn is_version_valid(package_version: &str) -> (b: bool)
    ensures
        b == semver_accepts(package_version@),
{
    semver_parses(package_version)
}

fn vec_eq(a: &Vec<char>, b: &Vec<char>) -> (r: bool)
    ensures
        r == (a@ == b@),
{
    if a.len() != b.len() {
        return false;
    }
    let mut i: usize = 0;
    while i < a.len()
        invariant
            a@.len() == b@.len(),
            i <= a@.len(),
            forall|k: int| 0 <= k < i ==> a@[k] == b@[k],
        decreases a.len() - i,
    {
        if a[i] != b[i] {
            return false;
        }
        i = i + 1;
    }
    assert(a@ =~= b@);
    true
}

/// The hints that stop a package from being published: one when the name
/// does not match the name pattern, one when the version is not a semantic
/// version. No hint means the pair is acceptable.
pub fn validate_name_and_version(package_name: &str, package_version: &str) -> (hints: Vec<
    &'static str,
>)
    ensures
        hints@.map_values(|h: &str| h@) == expected_hints(package_name@, package_version@),
{
    let mut hints: Vec<&'static str> = Vec::new();
    let name_ok = is_name_valid(package_name);
    if !name_ok {
        let h = "Package name should only contain alphanumeric characters connected by hyphens or underscores";
        hints.push(h);
    }
    if !is_version_valid(package_version) {
        let h = "Package version should adhere to semantic versioning (see https://semver.org)";
        hints.push(h);
    }
    proof {
        reveal_strlit("Package name should only contain alphanumeric characters connected by hyphens or underscores");
        reveal_strlit("Package version should adhere to semantic versioning (see https://semver.org)");
    }
    assert(hints@.map_values(|h: &str| h@) =~= expected_hints(package_name@, package_version@));
    hints
}

} // verus!
