//! Character-level string rules shared by the rest of the crate.
//!
//! Strings are modelled by their view, a `Seq<char>`; the executable
//! functions here work on `Vec<char>` and convert at the edges.

use vstd::prelude::*;

verus! {

/// `pat` occurs in `s` starting at index `i`.
pub open spec fn occurs_at(s: Seq<char>, pat: Seq<char>, i: int) -> bool {
    0 <= i && i + pat.len() <= s.len() && s.subrange(i, i + pat.len()) == pat
}

pub open spec fn starts_with(s: Seq<char>, pat: Seq<char>) -> bool {
    occurs_at(s, pat, 0)
}

pub open spec fn ends_with(s: Seq<char>, pat: Seq<char>) -> bool {
    pat.len() <= s.len() && s.subrange(s.len() - pat.len(), s.len() as int) == pat
}

pub open spec fn contains(s: Seq<char>, pat: Seq<char>) -> bool {
    exists|i: int| occurs_at(s, pat, i)
}

/// Replaces every occurrence of a non-empty `pat` in `s` by `rep`, scanning
/// from left to right without overlaps (the behaviour of `str::replace`).
pub open spec fn replace_all(s: Seq<char>, pat: Seq<char>, rep: Seq<char>) -> Seq<char>
    decreases s.len(),
{
    if s.len() == 0 || pat.len() == 0 {
        s
    } else if starts_with(s, pat) {
        rep + replace_all(s.skip(pat.len() as int), pat, rep)
    } else {
        seq![s[0]] + replace_all(s.skip(1), pat, rep)
    }
}

/// The characters of `s`.
pub fn chars_of(s: &str) -> (v: Vec<char>)
    ensures
        v@ == s@,
{
    broadcast use vstd::string::group_string_axioms;

    let mut v: Vec<char> = Vec::new();
    for c in it: s.chars()
        invariant
            v@ == it.seq().take(it.index() as int),
    {
        v.push(c);
    }
    assert(v@ =~= s@);
    v
}

/// Collects characters into a `String`: a call of `FromIterator<&char>` for
/// `String`, which appends the characters in order.
#[verifier::external_body]
pub(crate) fn string_of(v: &[char]) -> (s: String)
    ensures
        s@ == v@,
{
    v.iter().collect()
}

/// Whether `pat` occurs in `s` at index `i`.
pub fn occurs_at_exec(s: &Vec<char>, pat: &Vec<char>, i: usize) -> (b: bool)
    ensures
        b == occurs_at(s@, pat@, i as int),
{
    if i > s.len() || pat.len() > s.len() - i {
        return false;
    }
    let mut j: usize = 0;
    while j < pat.len()
        invariant
            i + pat@.len() <= s@.len(),
            i + pat.len() <= s.len(),
            j <= pat@.len(),
            forall|k: int| 0 <= k < j ==> s@[i + k] == pat@[k],
        decreases pat.len() - j,
    {
        if s[i + j] != pat[j] {
            assert(s@.subrange(i as int, i + pat@.len())[j as int] != pat@[j as int]);
            return false;
        }
        j = j + 1;
    }
    assert(s@.subrange(i as int, i + pat@.len()) =~= pat@);
    true
}

proof fn lemma_replace_step(s: Seq<char>, pat: Seq<char>, rep: Seq<char>, i: int)
    requires
        0 <= i < s.len(),
        pat.len() > 0,
    ensures
        occurs_at(s, pat, i) ==> replace_all(s.skip(i), pat, rep) == rep + replace_all(
            s.skip(i + pat.len()),
            pat,
            rep,
        ),
        !occurs_at(s, pat, i) ==> replace_all(s.skip(i), pat, rep) == seq![s[i]]
            + replace_all(s.skip(i + 1), pat, rep),
{
    let t = s.skip(i);
    if occurs_at(s, pat, i) {
        assert(t.subrange(0, pat.len() as int) =~= s.subrange(i, i + pat.len()));
        assert(t.skip(pat.len() as int) =~= s.skip(i + pat.len()));
    } else {
        if pat.len() <= t.len() {
            assert(t.subrange(0, pat.len() as int) =~= s.subrange(i, i + pat.len()));
        }
        assert(t.skip(1) =~= s.skip(i + 1));
    }
}

/// Some occurrence of `pat` in `a + b` starts in `a` and ends in `b`.
pub open spec fn straddles(a: Seq<char>, b: Seq<char>, pat: Seq<char>) -> bool {
    exists|i: int| 0 <= i < a.len() < i + pat.len() && #[trigger] occurs_at(a + b, pat, i)
}

/// Text without `pat` is left as it is.
pub proof fn lemma_replace_absent(s: Seq<char>, pat: Seq<char>, rep: Seq<char>)
    requires
        pat.len() > 0,
        !contains(s, pat),
    ensures
        replace_all(s, pat, rep) == s,
    decreases s.len(),
{
    if s.len() > 0 {
        assert(!occurs_at(s, pat, 0));
        let t = s.skip(1);
        assert forall|i: int| !occurs_at(t, pat, i) by {
            if occurs_at(t, pat, i) {
                assert(s.subrange(i + 1, i + 1 + pat.len()) =~= t.subrange(i, i + pat.len()));
                assert(occurs_at(s, pat, i + 1));
            }
        }
        lemma_replace_absent(t, pat, rep);
        assert(seq![s[0]] + t =~= s);
    }
}

/// Replacing in two pieces gives the same as replacing in the whole when no
/// occurrence spans both.
pub proof fn lemma_replace_concat(a: Seq<char>, b: Seq<char>, pat: Seq<char>, rep: Seq<char>)
    requires
        pat.len() > 0,
        !straddles(a, b, pat),
    ensures
        replace_all(a + b, pat, rep) == replace_all(a, pat, rep) + replace_all(b, pat, rep),
    decreases a.len(),
{
    let ab = a + b;
    if a.len() == 0 {
        assert(ab =~= b);
        assert(replace_all(a, pat, rep) =~= Seq::<char>::empty());
    } else if starts_with(ab, pat) {
        if pat.len() > a.len() {
            assert(occurs_at(ab, pat, 0));
            assert(false);
        }
        assert(a.subrange(0, pat.len() as int) =~= ab.subrange(0, pat.len() as int));
        assert(starts_with(a, pat));
        let a2 = a.skip(pat.len() as int);
        assert(ab.skip(pat.len() as int) =~= a2 + b);
        assert forall|i: int| 0 <= i < a2.len() < i + pat.len() implies !#[trigger] occurs_at(a2 + b, pat, i) by {
            if occurs_at(a2 + b, pat, i) {
                let j = i + pat.len();
                assert((a2 + b).subrange(i, i + pat.len()) =~= ab.subrange(j, j + pat.len()));
                assert(occurs_at(ab, pat, j));
            }
        }
        lemma_replace_concat(a2, b, pat, rep);
        assert(rep + (replace_all(a2, pat, rep) + replace_all(b, pat, rep)) =~= (rep + replace_all(a2, pat, rep))
            + replace_all(b, pat, rep));
    } else {
        if starts_with(a, pat) {
            assert(ab.subrange(0, pat.len() as int) =~= a.subrange(0, pat.len() as int));
        }
        let a2 = a.skip(1);
        assert(ab.skip(1) =~= a2 + b);
        assert(ab[0] == a[0]);
        assert forall|i: int| 0 <= i < a2.len() < i + pat.len() implies !#[trigger] occurs_at(a2 + b, pat, i) by {
            if occurs_at(a2 + b, pat, i) {
                assert((a2 + b).subrange(i, i + pat.len()) =~= ab.subrange(i + 1, i + 1 + pat.len()));
                assert(occurs_at(ab, pat, i + 1));
            }
        }
        lemma_replace_concat(a2, b, pat, rep);
        assert(seq![a[0]] + (replace_all(a2, pat, rep) + replace_all(b, pat, rep)) =~= (seq![a[0]]
            + replace_all(a2, pat, rep)) + replace_all(b, pat, rep));
    }
}

/// The pattern alone becomes the replacement.
pub proof fn lemma_replace_whole(pat: Seq<char>, rep: Seq<char>)
    requires
        pat.len() > 0,
    ensures
        replace_all(pat, pat, rep) == rep,
{
    assert(pat.subrange(0, pat.len() as int) =~= pat);
    assert(starts_with(pat, pat));
    let e = pat.skip(pat.len() as int);
    assert(e =~= Seq::<char>::empty());
    assert(replace_all(e, pat, rep) == e);
    assert(replace_all(pat, pat, rep) == rep + replace_all(e, pat, rep));
    assert(rep + e =~= rep);
}

/// `s` with every occurrence of the non-empty `pat` replaced by `rep`.
pub fn replace_chars(s: &Vec<char>, pat: &Vec<char>, rep: &Vec<char>) -> (r: Vec<char>)
    requires
        pat@.len() > 0,
    ensures
        r@ == replace_all(s@, pat@, rep@),
{
    let mut out: Vec<char> = Vec::new();
    let mut i: usize = 0;
    assert(s@.skip(0) =~= s@);
    while i < s.len()
        invariant
            pat@.len() > 0,
            i <= s@.len(),
            out@ + replace_all(s@.skip(i as int), pat@, rep@) == replace_all(s@, pat@, rep@),
        decreases s.len() - i,
    {
        proof {
            lemma_replace_step(s@, pat@, rep@, i as int);
        }
        if occurs_at_exec(s, pat, i) {
            let ghost before = out@;
            let mut k: usize = 0;
            while k < rep.len()
                invariant
                    k <= rep@.len(),
                    out@ == before + rep@.subrange(0, k as int),
                decreases rep.len() - k,
            {
                out.push(rep[k]);
                k = k + 1;
            }
            assert(rep@.subrange(0, rep@.len() as int) =~= rep@);
            assert(before + (rep@ + replace_all(s@.skip(i + pat@.len()), pat@, rep@)) =~= out@
                + replace_all(s@.skip(i + pat@.len()), pat@, rep@));
            i = i + pat.len();
        } else {
            let ghost before = out@;
            out.push(s[i]);
            assert(before + (seq![s@[i as int]] + replace_all(s@.skip(i + 1), pat@, rep@))
                =~= out@ + replace_all(s@.skip(i + 1), pat@, rep@));
            i = i + 1;
        }
    }
    assert(s@.skip(i as int) =~= Seq::<char>::empty());
    assert(out@ + Seq::<char>::empty() =~= out@);
    out
}

/// `str::replace` for a non-empty pattern.
pub fn replace_str(s: &str, pat: &str, rep: &str) -> (r: String)
    requires
        pat@.len() > 0,
    ensures
        r@ == replace_all(s@, pat@, rep@),
{
    let sv = chars_of(s);
    let pv = chars_of(pat);
    let rv = chars_of(rep);
    let out = replace_chars(&sv, &pv, &rv);
    string_of(out.as_slice())
}

} // verus!

verus! {

/// Whether the non-empty-or-empty `pat` occurs somewhere in `s`.
pub fn contains_chars(s: &Vec<char>, pat: &Vec<char>) -> (b: bool)
    ensures
        b == contains(s@, pat@),
{
    let mut i: usize = 0;
    while i < s.len()
        invariant
            i <= s@.len(),
            forall|k: int| 0 <= k < i ==> !occurs_at(s@, pat@, k),
        decreases s.len() - i,
    {
        if occurs_at_exec(s, pat, i) {
            return true;
        }
        i = i + 1;
    }
    if occurs_at_exec(s, pat, i) {
        return true;
    }
    assert forall|k: int| !occurs_at(s@, pat@, k) by {
        if 0 <= k < i {
        }
    }
    false
}

/// `str::contains` with a string pattern.
pub fn contains_str(s: &str, pat: &str) -> (b: bool)
    ensures
        b == contains(s@, pat@),
{
    let sv = chars_of(s);
    let pv = chars_of(pat);
    contains_chars(&sv, &pv)
}

/// `str::starts_with` with a string pattern.
pub fn starts_with_str(s: &str, pat: &str) -> (b: bool)
    ensures
        b == starts_with(s@, pat@),
{
    let sv = chars_of(s);
    let pv = chars_of(pat);
    occurs_at_exec(&sv, &pv, 0)
}

/// `str::ends_with` with a string pattern.
pub fn ends_with_str(s: &str, pat: &str) -> (b: bool)
    ensures
        b == ends_with(s@, pat@),
{
    let sv = chars_of(s);
    let pv = chars_of(pat);
    if pv.len() > sv.len() {
        return false;
    }
    let r = occurs_at_exec(&sv, &pv, sv.len() - pv.len());
    r
}

/// The concatenation of `a` and `b`.
pub fn concat_str(a: &str, b: &str) -> (r: String)
    ensures
        r@ == a@ + b@,
{
    let mut r = String::from_str(a);
    r.append(b);
    r
}

/// The concatenation of three strings.
pub fn concat3(a: &str, b: &str, c: &str) -> (r: String)
    ensures
        r@ == a@ + b@ + c@,
{
    let mut r = String::from_str(a);
    r.append(b);
    r.append(c);
    r
}

/// The first `n` characters of `s` (all of them when it has fewer).
pub fn take_chars(s: &str, n: usize) -> (r: String)
    ensures
        r@ == (if s@.len() <= n { s@ } else { s@.take(n as int) }),
{
    let v = chars_of(s);
    if v.len() <= n {
        return String::from_str(s);
    }
    let mut out: Vec<char> = Vec::new();
    let mut i: usize = 0;
    while i < n
        invariant
            n < v@.len(),
            i <= n,
            out@ == v@.take(i as int),
        decreases n - i,
    {
        out.push(v[i]);
        i = i + 1;
        assert(out@ =~= v@.take(i as int));
    }
    string_of(out.as_slice())
}

} // verus!

verus! {

/// The pieces of `s` between occurrences of `c` (`str::split` with a
/// character): one more piece than there are occurrences.
pub open spec fn split_on(s: Seq<char>, c: char) -> Seq<Seq<char>>
    decreases s.len(),
{
    if s.len() == 0 {
        seq![Seq::empty()]
    } else {
        let t = split_on(s.drop_last(), c);
        if s.last() == c {
            t.push(Seq::empty())
        } else {
            t.update(t.len() - 1, t.last().push(s.last()))
        }
    }
}

pub proof fn lemma_split_on_nonempty(s: Seq<char>, c: char)
    ensures
        split_on(s, c).len() >= 1,
    decreases s.len(),
{
    if s.len() > 0 {
        lemma_split_on_nonempty(s.drop_last(), c);
    }
}

/// The pieces joined with `sep` between them (`[&str]::join`).
pub open spec fn join_with(pieces: Seq<Seq<char>>, sep: Seq<char>) -> Seq<char>
    decreases pieces.len(),
{
    if pieces.len() == 0 {
        Seq::empty()
    } else if pieces.len() == 1 {
        pieces[0]
    } else {
        join_with(pieces.drop_last(), sep) + sep + pieces.last()
    }
}

/// The pieces of `s` split at `c`.
pub fn split_chars(s: &Vec<char>, c: char) -> (r: Vec<Vec<char>>)
    ensures
        r@.map_values(|p: Vec<char>| p@) == split_on(s@, c),
{
    let mut r: Vec<Vec<char>> = Vec::new();
    r.push(Vec::new());
    let mut i: usize = 0;
    assert(s@.take(0) =~= Seq::<char>::empty());
    assert(r@.map_values(|p: Vec<char>| p@) =~= split_on(s@.take(0), c));
    while i < s.len()
        invariant
            i <= s@.len(),
            r@.len() >= 1,
            r@.map_values(|p: Vec<char>| p@) == split_on(s@.take(i as int), c),
        decreases s.len() - i,
    {
        let ghost before = r@.map_values(|p: Vec<char>| p@);
        assert(s@.take(i + 1).drop_last() =~= s@.take(i as int));
        if s[i] == c {
            r.push(Vec::new());
            assert(r@.map_values(|p: Vec<char>| p@) =~= before.push(Seq::empty()));
        } else {
            let mut piece = r.pop().unwrap();
            piece.push(s[i]);
            r.push(piece);
            assert(r@.map_values(|p: Vec<char>| p@) =~= before.update(
                before.len() - 1,
                before.last().push(s@[i as int]),
            ));
        }
        i = i + 1;
    }
    assert(s@.take(s@.len() as int) =~= s@);
    r
}

/// The pieces joined with `sep`.
pub fn join_chars(pieces: &Vec<Vec<char>>, sep: &Vec<char>) -> (r: Vec<char>)
    ensures
        r@ == join_with(pieces@.map_values(|p: Vec<char>| p@), sep@),
{
    let ghost views = pieces@.map_values(|p: Vec<char>| p@);
    let mut r: Vec<char> = Vec::new();
    if pieces.len() == 0 {
        return r;
    }
    append_chars(&mut r, &pieces[0]);
    assert(views.take(1).drop_last() =~= Seq::<Seq<char>>::empty());
    assert(r@ == join_with(views.take(1), sep@));
    let mut i: usize = 1;
    while i < pieces.len()
        invariant
            1 <= i <= pieces@.len(),
            views == pieces@.map_values(|p: Vec<char>| p@),
            r@ == join_with(views.take(i as int), sep@),
        decreases pieces.len() - i,
    {
        append_chars(&mut r, sep);
        append_chars(&mut r, &pieces[i]);
        assert(views.take(i + 1).drop_last() =~= views.take(i as int));
        i = i + 1;
    }
    assert(views.take(pieces@.len() as int) =~= views);
    r
}

/// Appends the characters of `b` to `a`.
pub fn append_chars(a: &mut Vec<char>, b: &Vec<char>)
    ensures
        final(a)@ == old(a)@ + b@,
{
    let ghost start = a@;
    let mut k: usize = 0;
    while k < b.len()
        invariant
            k <= b@.len(),
            a@ == start + b@.take(k as int),
        decreases b.len() - k,
    {
        a.push(b[k]);
        k = k + 1;
        assert(a@ =~= start + b@.take(k as int));
    }
    assert(b@.take(b@.len() as int) =~= b@);
}

/// What follows the last occurrence of a non-empty `pat` found while
/// scanning `s` from index `i`, where the current piece starts at `start`.
pub open spec fn scan_last_piece(s: Seq<char>, pat: Seq<char>, i: int, start: int) -> Seq<char>
    decreases s.len() - i,
{
    if i >= s.len() || pat.len() == 0 {
        s.skip(start)
    } else if occurs_at(s, pat, i) {
        scan_last_piece(s, pat, i + pat.len(), i + pat.len())
    } else {
        scan_last_piece(s, pat, i + 1, start)
    }
}

/// The last piece of `s` split at `pat` (`s.split(pat).last()`).
pub open spec fn last_piece(s: Seq<char>, pat: Seq<char>) -> Seq<char> {
    scan_last_piece(s, pat, 0, 0)
}

/// The last piece of `s` split at the non-empty `pat`.
pub fn last_piece_of(s: &str, pat: &str) -> (r: String)
    requires
        pat@.len() > 0,
    ensures
        r@ == last_piece(s@, pat@),
{
    let sv = chars_of(s);
    let pv = chars_of(pat);
    let mut i: usize = 0;
    let mut start: usize = 0;
    while i < sv.len()
        invariant
            pv@.len() > 0,
            start <= i <= sv@.len(),
            scan_last_piece(sv@, pv@, i as int, start as int) == last_piece(sv@, pv@),
        decreases sv.len() - i,
    {
        if occurs_at_exec(&sv, &pv, i) {
            i = i + pv.len();
            start = i;
        } else {
            i = i + 1;
        }
    }
    let mut out: Vec<char> = Vec::new();
    let mut k: usize = start;
    while k < sv.len()
        invariant
            start <= k <= sv@.len(),
            out@ == sv@.subrange(start as int, k as int),
        decreases sv.len() - k,
    {
        out.push(sv[k]);
        k = k + 1;
        assert(out@ =~= sv@.subrange(start as int, k as int));
    }
    assert(out@ =~= sv@.skip(start as int));
    string_of(out.as_slice())
}

/// The decimal digit for `d < 10`.
pub open spec fn digit_char(d: nat) -> char {
    if d == 0 { '0' } else if d == 1 { '1' } else if d == 2 { '2' } else if d == 3 { '3' }
    else if d == 4 { '4' } else if d == 5 { '5' } else if d == 6 { '6' } else if d == 7 { '7' }
    else if d == 8 { '8' } else { '9' }
}

/// The decimal notation of `n`.
pub open spec fn decimal(n: nat) -> Seq<char>
    decreases n,
{
    if n < 10 {
        seq![digit_char(n)]
    } else {
        decimal(n / 10).push(digit_char(n % 10))
    }
}

fn digit_of(d: u64) -> (c: char)
    requires
        d < 10,
    ensures
        c == digit_char(d as nat),
{
    if d == 0 { '0' } else if d == 1 { '1' } else if d == 2 { '2' } else if d == 3 { '3' }
    else if d == 4 { '4' } else if d == 5 { '5' } else if d == 6 { '6' } else if d == 7 { '7' }
    else if d == 8 { '8' } else { '9' }
}

fn decimal_chars(n: u64) -> (v: Vec<char>)
    ensures
        v@ == decimal(n as nat),
    decreases n,
{
    if n < 10 {
        let mut v: Vec<char> = Vec::new();
        v.push(digit_of(n));
        assert(v@ =~= seq![digit_char(n as nat)]);
        v
    } else {
        let mut v = decimal_chars(n / 10);
        v.push(digit_of(n % 10));
        v
    }
}

/// The decimal notation of `n`.
pub fn decimal_string(n: u64) -> (s: String)
    ensures
        s@ == decimal(n as nat),
{
    let v = decimal_chars(n);
    string_of(v.as_slice())
}

// ------------------------------------------------------------ integers

/// The value of a decimal digit character.
pub open spec fn digit_value(c: char) -> int {
    if c == '1' { 1 } else if c == '2' { 2 } else if c == '3' { 3 } else if c == '4' { 4 }
    else if c == '5' { 5 } else if c == '6' { 6 } else if c == '7' { 7 } else if c == '8' { 8 }
    else if c == '9' { 9 } else { 0 }
}

pub open spec fn is_digit(c: char) -> bool {
    '0' <= c && c <= '9'
}

/// One or more decimal digits.
pub open spec fn all_digits(s: Seq<char>) -> bool {
    s.len() > 0 && forall|i: int| 0 <= i < s.len() ==> is_digit(#[trigger] s[i])
}

/// The number written by decimal digits.
pub open spec fn digits_value(s: Seq<char>) -> int
    decreases s.len(),
{
    if s.len() == 0 {
        0
    } else {
        digits_value(s.drop_last()) * 10 + digit_value(s.last())
    }
}

/// The number a text writes as `str::parse::<i32>` reads it: an optional
/// `+` or `-` and one or more decimal digits, nothing else; `None` for any
/// other text or a number out of the range of `i32`.
pub open spec fn parsed_i32(s: Seq<char>) -> Option<i32> {
    let v: Option<int> = if s.len() > 0 && s[0] == '-' && all_digits(s.skip(1)) {
        Some(-digits_value(s.skip(1)))
    } else if s.len() > 0 && s[0] == '+' && all_digits(s.skip(1)) {
        Some(digits_value(s.skip(1)))
    } else if all_digits(s) {
        Some(digits_value(s))
    } else {
        None
    };
    match v {
        Some(n) => if i32::MIN <= n <= i32::MAX {
            Some(n as i32)
        } else {
            None
        },
        None => None,
    }
}

proof fn lemma_digits_value_grows(s: Seq<char>, k: int)
    requires
        0 <= k <= s.len(),
    ensures
        0 <= digits_value(s.take(k)) <= digits_value(s),
    decreases s.len(),
{
    if s.len() > 0 {
        if k == s.len() {
            assert(s.take(k) =~= s);
            lemma_digits_value_grows(s.drop_last(), s.len() - 1);
            assert(s.drop_last().take(s.len() - 1) =~= s.drop_last());
        } else {
            lemma_digits_value_grows(s.drop_last(), k);
            assert(s.drop_last().take(k) =~= s.take(k));
            lemma_digits_value_grows(s.drop_last(), s.len() - 1);
            assert(s.drop_last().take(s.len() - 1) =~= s.drop_last());
        }
    } else {
        assert(s.take(k) =~= s);
    }
}

fn digit_value_of(c: char) -> (d: i64)
    ensures
        d == digit_value(c),
{
    if c == '1' { 1 } else if c == '2' { 2 } else if c == '3' { 3 } else if c == '4' { 4 }
    else if c == '5' { 5 } else if c == '6' { 6 } else if c == '7' { 7 } else if c == '8' { 8 }
    else if c == '9' { 9 } else { 0 }
}

/// The value of the digits of `v` from index `from`, if they are all digits
/// (and there is one) and the value is at most 2^31.
fn digits_from(v: &Vec<char>, from: usize) -> (r: Option<i64>)
    requires
        from <= v@.len(),
    ensures
        match r {
            Some(n) => all_digits(v@.skip(from as int)) && n == digits_value(v@.skip(from as int))
                && 0 <= n <= 2147483648,
            None => !all_digits(v@.skip(from as int)) || digits_value(v@.skip(from as int)) > 2147483648,
        },
{
    let ghost d = v@.skip(from as int);
    if from >= v.len() {
        return None;
    }
    let mut acc: i64 = 0;
    let mut k: usize = from;
    while k < v.len()
        invariant
            from <= k <= v@.len(),
            d == v@.skip(from as int),
            from < v@.len(),
            forall|i: int| 0 <= i < k - from ==> is_digit(#[trigger] d[i]),
            acc == digits_value(d.take(k - from)),
            0 <= acc <= 2147483648,
        decreases v.len() - k,
    {
        let c = v[k];
        assert(d[k - from] == c);
        if !('0' <= c && c <= '9') {
            assert(!is_digit(d[k - from]));
            return None;
        }
        let next = acc * 10 + digit_value_of(c);
        assert(d.take(k - from + 1).drop_last() =~= d.take(k - from));
        assert(d.take(k - from + 1).last() == c);
        if next > 2147483648 {
            proof {
                lemma_digits_value_grows(d, k - from + 1);
            }
            return None;
        }
        acc = next;
        k = k + 1;
    }
    assert(d.take(k - from) =~= d);
    Some(acc)
}

/// `str::parse::<i32>`, read from the text.
pub fn parse_i32(s: &str) -> (r: Option<i32>)
    ensures
        r == parsed_i32(s@),
{
    let v = chars_of(s);
    assert(v@.skip(0) =~= v@);
    if v.len() > 0 && (v[0] == '-' || v[0] == '+') {
        let negative = v[0] == '-';
        match digits_from(&v, 1) {
            Some(n) => {
                if negative {
                    Some((0 - n) as i32)
                } else if n <= 2147483647 {
                    Some(n as i32)
                } else {
                    None
                }
            },
            None => None,
        }
    } else {
        match digits_from(&v, 0) {
            Some(n) => if n <= 2147483647 {
                Some(n as i32)
            } else {
                None
            },
            None => None,
        }
    }
}

} // verus!
