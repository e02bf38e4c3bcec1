//! The list of people shown in a package's settings: its owner and
//! collaborators, and, to collaborators, pending invitations too, each
//! with a status, sorted by status.

use vstd::prelude::*;

verus! {

/// Where someone stands with a package. The order of the variants is the
/// order of the list.
#[derive(Clone, Copy, Debug, PartialEq, Eq, Structural, PartialOrd, Ord, Hash)]
pub enum Status {
    Owner,
    Collaborator,
    PendingCollaborator,
    PendingOwner,
    External,
}

/// A line of the list: a status and the address (or GitHub login) shown.
#[derive(Debug)]
pub struct SerializableInvitation {
    pub status: Status,
    pub email: String,
}

/// Two lines are equal when they show the same address.
impl PartialEq for SerializableInvitation {
    fn eq(&self, other: &SerializableInvitation) -> (r: bool) {
        self.email == other.email
    }
}

impl vstd::std_specs::cmp::PartialEqSpecImpl for SerializableInvitation {
    open spec fn obeys_eq_spec() -> bool {
        true
    }

    open spec fn eq_spec(&self, other: &SerializableInvitation) -> bool {
        self.email@ == other.email@
    }
}

impl Eq for SerializableInvitation {}

impl SerializableInvitation {
    /// A copy of this line.
    pub fn copy(&self) -> (r: SerializableInvitation)
        ensures
            r == *self,
    {
        SerializableInvitation { status: self.status, email: self.email.clone() }
    }
}

/// What the list needs of an account.
#[derive(Debug)]
pub struct AccountEntry {
    pub id: i32,
    pub email: String,
    pub github_login: Option<String>,
    /// The account's email was made up for a GitHub login.
    pub has_generated_email: bool,
}

/// The owner is the first collaborator (they are listed by role); with no
/// collaborator, no account is the owner.
pub open spec fn owner_of(accepted: Seq<i32>) -> i32 {
    if accepted.len() > 0 {
        accepted[0]
    } else {
        -1i32
    }
}

/// The name shown for an account: to collaborators, the GitHub login of an
/// account whose email was made up for it (when it has one); else the
/// email.
pub open spec fn shown_name(a: AccountEntry, to_member: bool) -> String {
    if to_member && a.has_generated_email {
        match a.github_login {
            Some(g) => g,
            None => a.email,
        }
    } else {
        a.email
    }
}

/// The status shown to collaborators: a collaborator with a pending
/// invitation is a pending owner; someone invited only is a pending
/// collaborator.
pub open spec fn member_view_status(id: i32, accepted: Seq<i32>, pending: Seq<i32>) -> Status {
    if id == owner_of(accepted) {
        Status::Owner
    } else if accepted.contains(id) && pending.contains(id) {
        Status::PendingOwner
    } else if accepted.contains(id) {
        Status::Collaborator
    } else {
        Status::PendingCollaborator
    }
}

/// The status shown to others: owner or collaborator.
pub open spec fn outsider_view_status(id: i32, accepted: Seq<i32>) -> Status {
    if id == owner_of(accepted) {
        Status::Owner
    } else {
        Status::Collaborator
    }
}

pub open spec fn entry_of(a: AccountEntry, accepted: Seq<i32>, pending: Seq<i32>, to_member: bool) -> SerializableInvitation {
    SerializableInvitation {
        status: if to_member {
            member_view_status(a.id, accepted, pending)
        } else {
            outsider_view_status(a.id, accepted)
        },
        email: shown_name(a, to_member),
    }
}

pub open spec fn external_entry(email: String) -> SerializableInvitation {
    SerializableInvitation { status: Status::External, email }
}

/// The lines before sorting: one per account, then, for collaborators, one
/// per address invited without an account.
pub open spec fn unsorted_entries(
    accounts: Seq<AccountEntry>,
    accepted: Seq<i32>,
    pending: Seq<i32>,
    externals: Seq<String>,
    to_member: bool,
) -> Seq<SerializableInvitation> {
    accounts.map_values(|a: AccountEntry| entry_of(a, accepted, pending, to_member)) + if to_member {
        externals.map_values(|e: String| external_entry(e))
    } else {
        Seq::empty()
    }
}

pub open spec fn with_status(s: Seq<SerializableInvitation>, st: Status) -> Seq<SerializableInvitation> {
    s.filter(|x: SerializableInvitation| x.status == st)
}

/// The lines sorted by status, keeping the order of lines of one status.
pub open spec fn by_status(s: Seq<SerializableInvitation>) -> Seq<SerializableInvitation> {
    with_status(s, Status::Owner) + with_status(s, Status::Collaborator) + with_status(s, Status::PendingCollaborator)
        + with_status(s, Status::PendingOwner) + with_status(s, Status::External)
}

/// The ids whose accounts the list shows: the collaborators and, to a
/// collaborator, the invited accounts too.
pub open spec fn shown_id(id: i32, accepted: Seq<i32>, pending: Seq<i32>, to_member: bool) -> bool {
    accepted.contains(id) || (to_member && pending.contains(id))
}

/// Whether `id` occurs in `v`.
pub fn contains_id(v: &Vec<i32>, id: i32) -> (b: bool)
    ensures
        b == v@.contains(id),
{
    let mut i: usize = 0;
    while i < v.len()
        invariant
            i <= v.len(),
            forall|j: int| 0 <= j < i ==> v@[j] != id,
        decreases v.len() - i,
    {
        if v[i] == id {
            return true;
        }
        i = i + 1;
    }
    false
}

/// Appends to `out` the ids of `ids` it does not hold yet.
fn append_new_ids(out: &mut Vec<i32>, ids: &Vec<i32>)
    requires
        old(out)@.no_duplicates(),
    ensures
        final(out)@.no_duplicates(),
        forall|x: i32| #[trigger] final(out)@.contains(x) <==> (old(out)@.contains(x) || ids@.contains(x)),
{
    let ghost start = out@;
    let mut i: usize = 0;
    while i < ids.len()
        invariant
            i <= ids.len(),
            out@.no_duplicates(),
            forall|x: i32| #[trigger] out@.contains(x) <==> (start.contains(x) || ids@.take(i as int).contains(x)),
        decreases ids.len() - i,
    {
        let id = ids[i];
        let ghost before = out@;
        assert(ids@.take(i as int + 1) =~= ids@.take(i as int).push(id));
        if !contains_id(out, id) {
            out.push(id);
            assert forall|x: i32| #[trigger] out@.contains(x) <==> (before.contains(x) || x == id) by {
                if out@.contains(x) {
                    let k = choose|k: int| 0 <= k < out@.len() && out@[k] == x;
                    if k < before.len() {
                        assert(before[k] == x);
                    }
                }
                if before.contains(x) {
                    let k = choose|k: int| 0 <= k < before.len() && before[k] == x;
                    assert(out@[k] == x);
                }
                if x == id {
                    assert(out@[before.len() as int] == x);
                }
            }
        }
        assert forall|x: i32| #[trigger] ids@.take(i as int + 1).contains(x) <==> (ids@.take(i as int).contains(x) || x == id) by {
            let t = ids@.take(i as int + 1);
            if t.contains(x) {
                let k = choose|k: int| 0 <= k < t.len() && t[k] == x;
                if k < i {
                    assert(ids@.take(i as int)[k] == x);
                }
            }
            if ids@.take(i as int).contains(x) {
                let k = choose|k: int| 0 <= k < i && ids@.take(i as int)[k] == x;
                assert(t[k] == x);
            }
            if x == id {
                assert(t[i as int] == x);
            }
        }
        i = i + 1;
    }
    assert(ids@.take(ids.len() as int) =~= ids@);
}

/// The ids of the accounts to load for the list, each once.
pub fn ids_to_show(accepted: &Vec<i32>, pending: &Vec<i32>, to_member: bool) -> (r: Vec<i32>)
    ensures
        r@.no_duplicates(),
        forall|x: i32| #[trigger] r@.contains(x) <==> shown_id(x, accepted@, pending@, to_member),
{
    let mut out: Vec<i32> = Vec::new();
    append_new_ids(&mut out, accepted);
    if to_member {
        append_new_ids(&mut out, pending);
    }
    out
}

/// The name shown for `a`.
fn shown_name_of(a: &AccountEntry, to_member: bool) -> (r: String)
    ensures
        r == shown_name(*a, to_member),
{
    if to_member && a.has_generated_email {
        match &a.github_login {
            Some(g) => g.clone(),
            None => a.email.clone(),
        }
    } else {
        a.email.clone()
    }
}

/// The line of `a`.
fn entry_for(a: &AccountEntry, accepted: &Vec<i32>, pending: &Vec<i32>, to_member: bool) -> (r: SerializableInvitation)
    ensures
        r == entry_of(*a, accepted@, pending@, to_member),
{
    let owner: i32 = if accepted.len() > 0 { accepted[0] } else { -1 };
    let status = if to_member {
        if a.id == owner {
            Status::Owner
        } else {
            let is_accepted = contains_id(accepted, a.id);
            if is_accepted && contains_id(pending, a.id) {
                Status::PendingOwner
            } else if is_accepted {
                Status::Collaborator
            } else {
                Status::PendingCollaborator
            }
        }
    } else if a.id == owner {
        Status::Owner
    } else {
        Status::Collaborator
    };
    SerializableInvitation { status, email: shown_name_of(a, to_member) }
}

proof fn lemma_with_status_push(s: Seq<SerializableInvitation>, e: SerializableInvitation, st: Status)
    ensures
        with_status(s.push(e), st) == if e.status == st {
            with_status(s, st).push(e)
        } else {
            with_status(s, st)
        },
{
    let t = s.push(e);
    assert(t.drop_last() =~= s);
    assert(t.last() == e);
    reveal_with_fuel(Seq::filter, 1);
}

/// Appends to `out` the lines of `entries` with status `st`, in order.
fn append_with_status(out: &mut Vec<SerializableInvitation>, entries: &Vec<SerializableInvitation>, st: Status)
    ensures
        final(out)@ == old(out)@ + with_status(entries@, st),
{
    let ghost start = out@;
    let mut i: usize = 0;
    while i < entries.len()
        invariant
            i <= entries.len(),
            out@ == start + with_status(entries@.take(i as int), st),
        decreases entries.len() - i,
    {
        assert(entries@.take(i as int + 1) =~= entries@.take(i as int).push(entries@[i as int]));
        proof {
            lemma_with_status_push(entries@.take(i as int), entries@[i as int], st);
        }
        if entries[i].status == st {
            out.push(entries[i].copy());
        }
        assert(out@ =~= start + with_status(entries@.take(i as int + 1), st));
        i = i + 1;
    }
    assert(entries@.take(entries.len() as int) =~= entries@);
}

/// The lines sorted by status, lines of one status in their given order.
pub fn sort_by_status(entries: &Vec<SerializableInvitation>) -> (r: Vec<SerializableInvitation>)
    ensures
        r@ == by_status(entries@),
{
    let mut out: Vec<SerializableInvitation> = Vec::new();
    append_with_status(&mut out, entries, Status::Owner);
    append_with_status(&mut out, entries, Status::Collaborator);
    append_with_status(&mut out, entries, Status::PendingCollaborator);
    append_with_status(&mut out, entries, Status::PendingOwner);
    append_with_status(&mut out, entries, Status::External);
    assert(out@ =~= by_status(entries@));
    out
}

/// The list shown in a package's settings to user `user_id`, and whether
/// that user owns the package. `accepted` are the collaborators' ids, owner
/// first; `pending` the ids of invited accounts; `accounts` the accounts of
/// the ids `ids_to_show` gives; `externals` the addresses invited without
/// an account.
pub fn settings_list(
    accounts: &Vec<AccountEntry>,
    accepted: &Vec<i32>,
    pending: &Vec<i32>,
    externals: &Vec<String>,
    user_id: i32,
) -> (r: (Vec<SerializableInvitation>, bool))
    ensures
        r.0@ == by_status(
            unsorted_entries(accounts@, accepted@, pending@, externals@, accepted@.contains(user_id)),
        ),
        r.1 == (accepted@.contains(user_id) && owner_of(accepted@) == user_id),
{
    let to_member = contains_id(accepted, user_id);
    let owner: i32 = if accepted.len() > 0 { accepted[0] } else { -1 };
    let mut entries: Vec<SerializableInvitation> = Vec::new();
    let mut i: usize = 0;
    while i < accounts.len()
        invariant
            i <= accounts.len(),
            entries@.len() == i,
            forall|j: int| 0 <= j < i ==> #[trigger] entries@[j] == entry_of(accounts@[j], accepted@, pending@, to_member),
        decreases accounts.len() - i,
    {
        entries.push(entry_for(&accounts[i], accepted, pending, to_member));
        i = i + 1;
    }
    let n = entries.len();
    if to_member {
        let mut k: usize = 0;
        while k < externals.len()
            invariant
                k <= externals.len(),
                n == accounts@.len(),
                entries@.len() == n + k,
                forall|j: int| 0 <= j < n ==> #[trigger] entries@[j] == entry_of(accounts@[j], accepted@, pending@, to_member),
                forall|j: int| 0 <= j < k ==> #[trigger] entries@[n + j] == external_entry(externals@[j]),
            decreases externals.len() - k,
        {
            entries.push(SerializableInvitation { status: Status::External, email: externals[k].clone() });
            k = k + 1;
        }
    }
    let ghost head = accounts@.map_values(|a: AccountEntry| entry_of(a, accepted@, pending@, to_member));
    let ghost tail = if to_member {
        externals@.map_values(|e: String| external_entry(e))
    } else {
        Seq::<SerializableInvitation>::empty()
    };
    assert(head.len() == n);
    assert forall|j: int| 0 <= j < entries@.len() implies #[trigger] entries@[j] == (head + tail)[j] by {
        if j < n {
            assert(head[j] == entry_of(accounts@[j], accepted@, pending@, to_member));
        } else {
            assert(entries@[n + (j - n)] == external_entry(externals@[j - n]));
            assert(tail[j - n] == external_entry(externals@[j - n]));
        }
    }
    assert(entries@ =~= head + tail);
    let sorted = sort_by_status(&entries);
    (sorted, to_member && owner == user_id)
}

/// The position of a status in the list.
pub open spec fn status_rank(st: Status) -> int {
    match st {
        Status::Owner => 0,
        Status::Collaborator => 1,
        Status::PendingCollaborator => 2,
        Status::PendingOwner => 3,
        Status::External => 4,
    }
}

proof fn lemma_with_status_all(s: Seq<SerializableInvitation>, st: Status)
    ensures
        forall|k: int| 0 <= k < with_status(s, st).len() ==> (#[trigger] with_status(s, st)[k]).status == st,
{
    assert forall|k: int| 0 <= k < with_status(s, st).len() implies (#[trigger] with_status(s, st)[k]).status
        == st by {
        s.lemma_filter_pred(|x: SerializableInvitation| x.status == st, k);
    }
}

proof fn lemma_by_status_multiset(s: Seq<SerializableInvitation>)
    ensures
        by_status(s).to_multiset() =~= s.to_multiset(),
    decreases s.len(),
{
    broadcast use vstd::multiset::group_multiset_axioms;

    let w0 = with_status(s, Status::Owner);
    let w1 = with_status(s, Status::Collaborator);
    let w2 = with_status(s, Status::PendingCollaborator);
    let w3 = with_status(s, Status::PendingOwner);
    let w4 = with_status(s, Status::External);
    vstd::seq_lib::lemma_multiset_commutative(w0, w1);
    vstd::seq_lib::lemma_multiset_commutative(w0 + w1, w2);
    vstd::seq_lib::lemma_multiset_commutative(w0 + w1 + w2, w3);
    vstd::seq_lib::lemma_multiset_commutative(w0 + w1 + w2 + w3, w4);
    if s.len() == 0 {
        reveal_with_fuel(Seq::filter, 1);
        assert(w0 =~= Seq::empty());
        assert(w1 =~= Seq::empty());
        assert(w2 =~= Seq::empty());
        assert(w3 =~= Seq::empty());
        assert(w4 =~= Seq::empty());
        assert(by_status(s) =~= Seq::empty());
    } else {
        let t = s.drop_last();
        let e = s.last();
        assert(s =~= t.push(e));
        lemma_by_status_multiset(t);
        lemma_with_status_push(t, e, Status::Owner);
        lemma_with_status_push(t, e, Status::PendingOwner);
        lemma_with_status_push(t, e, Status::Collaborator);
        lemma_with_status_push(t, e, Status::PendingCollaborator);
        lemma_with_status_push(t, e, Status::External);
        let v0 = with_status(t, Status::Owner);
        let v1 = with_status(t, Status::Collaborator);
        let v2 = with_status(t, Status::PendingCollaborator);
        let v3 = with_status(t, Status::PendingOwner);
        let v4 = with_status(t, Status::External);
        vstd::seq_lib::lemma_multiset_commutative(v0, v1);
        vstd::seq_lib::lemma_multiset_commutative(v0 + v1, v2);
        vstd::seq_lib::lemma_multiset_commutative(v0 + v1 + v2, v3);
        vstd::seq_lib::lemma_multiset_commutative(v0 + v1 + v2 + v3, v4);
        vstd::seq_lib::to_multiset_build(t, e);
        vstd::seq_lib::to_multiset_build(v0, e);
        vstd::seq_lib::to_multiset_build(v1, e);
        vstd::seq_lib::to_multiset_build(v2, e);
        vstd::seq_lib::to_multiset_build(v3, e);
        vstd::seq_lib::to_multiset_build(v4, e);
    }
}

/// The list is sorted by status (owner, collaborators, pending
/// collaborators, pending owners, then addresses without an account) and
/// holds exactly the lines it was made from.
pub proof fn law_settings_list_sorted(s: Seq<SerializableInvitation>)
    ensures
        forall|i: int, j: int|
            0 <= i <= j < by_status(s).len() ==> status_rank(by_status(s)[i].status) <= status_rank(
                by_status(s)[j].status,
            ),
        by_status(s).to_multiset() == s.to_multiset(),
{
    lemma_by_status_multiset(s);
    let w0 = with_status(s, Status::Owner);
    let w1 = with_status(s, Status::Collaborator);
    let w2 = with_status(s, Status::PendingCollaborator);
    let w3 = with_status(s, Status::PendingOwner);
    let w4 = with_status(s, Status::External);
    lemma_with_status_all(s, Status::Owner);
    lemma_with_status_all(s, Status::PendingOwner);
    lemma_with_status_all(s, Status::Collaborator);
    lemma_with_status_all(s, Status::PendingCollaborator);
    lemma_with_status_all(s, Status::External);
    let r = by_status(s);
    let a = w0.len();
    let b = a + w1.len();
    let c = b + w2.len();
    let d = c + w3.len();
    assert forall|i: int| 0 <= i < r.len() implies status_rank(#[trigger] r[i].status) == (if i < a {
        0int
    } else if i < b {
        1int
    } else if i < c {
        2int
    } else if i < d {
        3int
    } else {
        4int
    }) by {
        if i < a {
            assert(r[i] == w0[i]);
        } else if i < b {
            assert(r[i] == w1[i - a]);
        } else if i < c {
            assert(r[i] == w2[i - b]);
        } else if i < d {
            assert(r[i] == w3[i - c]);
        } else {
            assert(r[i] == w4[i - d]);
        }
    }
}

/// Someone who does not collaborate on the package sees its owner and
/// collaborators only: no pending invitation and no address without an
/// account.
pub proof fn law_outsiders_see_members_only(
    accounts: Seq<AccountEntry>,
    accepted: Seq<i32>,
    pending: Seq<i32>,
    externals: Seq<String>,
)
    ensures
        forall|i: int|
            0 <= i < unsorted_entries(accounts, accepted, pending, externals, false).len() ==> {
                let st = (#[trigger] unsorted_entries(accounts, accepted, pending, externals, false)[i]).status;
                st == Status::Owner || st == Status::Collaborator
            },
        unsorted_entries(accounts, accepted, pending, externals, false).len() == accounts.len(),
{
}

} // verus!
