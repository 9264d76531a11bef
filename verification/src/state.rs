//! The persisted account record of the recovery wallet, and the
//! mathematical model that the contracts of every operation speak of.

use vstd::prelude::*;

verus! {

/// One account record: a single owner, the two guardian lists of the
/// two-phase onboarding, the in-flight recovery vote, and the informational
/// family-member list.
pub struct State {
    pub owner: String,
    pub guardians_pending: Vec<String>,
    pub guardians: Vec<String>,
    pub is_recovering: bool,
    pub recovery_address: String,
    pub recovery_signatures: Vec<String>,
    pub family_members: Vec<String>,
}

/// The abstract image of a `State`: every identifier is seen as its
/// character sequence, every list as a sequence of those.
#[verifier::ext_equal]
pub ghost struct StateModel {
    pub owner: Seq<char>,
    pub guardians_pending: Seq<Seq<char>>,
    pub guardians: Seq<Seq<char>>,
    pub is_recovering: bool,
    pub recovery_address: Seq<char>,
    pub recovery_signatures: Seq<Seq<char>>,
    pub family_members: Seq<Seq<char>>,
}

/// The identifiers of a list, each as its character sequence.
pub open spec fn ids(s: Seq<String>) -> Seq<Seq<char>> {
    s.map_values(|t: String| t@)
}

impl View for State {
    type V = StateModel;

    open spec fn view(&self) -> StateModel {
        StateModel {
            owner: self.owner@,
            guardians_pending: ids(self.guardians_pending@),
            guardians: ids(self.guardians@),
            is_recovering: self.is_recovering,
            recovery_address: self.recovery_address@,
            recovery_signatures: ids(self.recovery_signatures@),
            family_members: ids(self.family_members@),
        }
    }
}

/// No identifier occurs twice in the list.
pub open spec fn no_dup(s: Seq<Seq<char>>) -> bool {
    forall|i: int, j: int| 0 <= i < j < s.len() ==> s[i] != s[j]
}

/// No identifier stands in both lists.
pub open spec fn disjoint_lists(a: Seq<Seq<char>>, b: Seq<Seq<char>>) -> bool {
    forall|x: Seq<char>| a.contains(x) ==> !b.contains(x)
}

/// Every identifier of `a` stands in `b` too.
pub open spec fn subset_ids(a: Seq<Seq<char>>, b: Seq<Seq<char>>) -> bool {
    forall|x: Seq<char>| a.contains(x) ==> b.contains(x)
}

/// The list with every occurrence of `x` removed, the order of the rest kept.
pub open spec fn remove_all(s: Seq<Seq<char>>, x: Seq<char>) -> Seq<Seq<char>>
    decreases s.len(),
{
    if s.len() == 0 {
        Seq::empty()
    } else if s.last() == x {
        remove_all(s.drop_last(), x)
    } else {
        remove_all(s.drop_last(), x).push(s.last())
    }
}

/// How often `x` occurs in the list.
pub open spec fn count_id(s: Seq<Seq<char>>, x: Seq<char>) -> nat
    decreases s.len(),
{
    if s.len() == 0 {
        0
    } else if s.last() == x {
        count_id(s.drop_last(), x) + 1
    } else {
        count_id(s.drop_last(), x)
    }
}

impl StateModel {
    /// Well-formedness of an account record: the confirmed and the pending
    /// guardian lists are duplicate-free and disjoint, the family list is
    /// duplicate-free, every recovery signature belongs to a confirmed
    /// guardian, and outside a recovery no signatures are held.
    pub open spec fn wf(self) -> bool {
        &&& no_dup(self.guardians)
        &&& no_dup(self.guardians_pending)
        &&& disjoint_lists(self.guardians, self.guardians_pending)
        &&& no_dup(self.family_members)
        &&& subset_ids(self.recovery_signatures, self.guardians)
        &&& (!self.is_recovering ==> self.recovery_signatures.len() == 0)
    }
}

impl State {
    /// Well-formedness, stated of the record through its model.
    pub open spec fn wf(&self) -> bool {
        self@.wf()
    }
}

/// `contains` seen through a split at the last element.
pub proof fn lemma_contains_split(s: Seq<Seq<char>>, y: Seq<char>)
    requires
        s.len() > 0,
    ensures
        s.contains(y) <==> (s.drop_last().contains(y) || s.last() == y),
{
    if s.contains(y) {
        let i = choose|i: int| 0 <= i < s.len() && s[i] == y;
        if i < s.len() - 1 {
            assert(s.drop_last()[i] == y);
        }
    }
    if s.drop_last().contains(y) {
        let i = choose|i: int| 0 <= i < s.drop_last().len() && s.drop_last()[i] == y;
        assert(s[i] == y);
    }
    if s.last() == y {
        assert(s[s.len() - 1] == y);
    }
}

/// `contains` seen through a push.
pub proof fn lemma_contains_push(s: Seq<Seq<char>>, x: Seq<char>, y: Seq<char>)
    ensures
        s.push(x).contains(y) <==> (s.contains(y) || y == x),
{
    assert(s.push(x).drop_last() =~= s);
    lemma_contains_split(s.push(x), y);
}

/// What removal leaves: exactly the other identifiers of the list,
/// without duplicates if there were none, and the list itself when the
/// removed identifier was absent.
pub proof fn lemma_remove_all_props(s: Seq<Seq<char>>, x: Seq<char>)
    ensures
        forall|y: Seq<char>| #[trigger] remove_all(s, x).contains(y) <==> (s.contains(y) && y
            != x),
        no_dup(s) ==> no_dup(remove_all(s, x)),
        !s.contains(x) ==> remove_all(s, x) == s,
    decreases s.len(),
{
    if s.len() == 0 {
        assert(remove_all(s, x) =~= s);
    } else {
        let t = s.drop_last();
        let l = s.last();
        lemma_remove_all_props(t, x);
        assert(no_dup(s) ==> no_dup(t)) by {
            if no_dup(s) {
                assert forall|i: int, j: int| 0 <= i < j < t.len() implies t[i] != t[j] by {
                    assert(s[i] == t[i] && s[j] == t[j]);
                }
            }
        }
        assert forall|y: Seq<char>| t.contains(y) implies s.contains(y) by {
            lemma_contains_split(s, y);
        }
        assert(s.contains(l)) by {
            assert(s[s.len() - 1] == l);
        }
        if l == x {
            if !s.contains(x) {
                assert(false);
            }
            assert forall|y: Seq<char>|
                #[trigger] remove_all(s, x).contains(y) <==> (s.contains(y) && y != x) by {
                assert(remove_all(s, x) == remove_all(t, x));
                assert(remove_all(t, x).contains(y) <==> (t.contains(y) && y != x));
                lemma_contains_split(s, y);
            }
        } else {
            let r = remove_all(t, x).push(l);
            assert(remove_all(s, x) == r);
            assert forall|y: Seq<char>| #[trigger] r.contains(y) <==> (s.contains(y) && y != x) by {
                lemma_contains_push(remove_all(t, x), l, y);
                lemma_contains_split(s, y);
            }
            if no_dup(s) {
                assert(!remove_all(t, x).contains(l)) by {
                    if remove_all(t, x).contains(l) {
                        assert(t.contains(l));
                        let i = choose|i: int| 0 <= i < t.len() && t[i] == l;
                        assert(s[i] == l && s[s.len() - 1] == l);
                    }
                }
                assert forall|i: int, j: int| 0 <= i < j < r.len() implies r[i] != r[j] by {
                    let p = remove_all(t, x);
                    if j < r.len() - 1 {
                        assert(r[i] == p[i] && r[j] == p[j]);
                    } else {
                        assert(r[i] == p[i] && r[j] == l);
                        assert(p.contains(p[i]));
                    }
                }
            }
            if !s.contains(x) {
                lemma_contains_split(s, x);
                assert(remove_all(t, x) == t);
                assert(r =~= s);
            }
        }
    }
}

/// An identifier occurs zero times exactly when the list does not hold it.
pub proof fn lemma_count_contains(s: Seq<Seq<char>>, x: Seq<char>)
    ensures
        (count_id(s, x) == 0) <==> !s.contains(x),
    decreases s.len(),
{
    if s.len() > 0 {
        lemma_count_contains(s.drop_last(), x);
        lemma_contains_split(s, x);
    }
}

/// How a push changes the count.
pub proof fn lemma_count_push(s: Seq<Seq<char>>, x: Seq<char>, y: Seq<char>)
    ensures
        y == x ==> count_id(s.push(y), x) == count_id(s, x) + 1,
        y != x ==> count_id(s.push(y), x) == count_id(s, x),
{
    assert(s.push(y).drop_last() =~= s);
}

/// Whether `id` stands in the list.
pub fn contains_id(list: &Vec<String>, id: &String) -> (r: bool)
    ensures
        r == ids(list@).contains(id@),
{
    let mut i: usize = 0;
    while i < list.len()
        invariant
            i <= list.len(),
            forall|j: int| 0 <= j < i ==> ids(list@)[j] != id@,
        decreases list.len() - i,
    {
        if list[i] == *id {
            assert(ids(list@)[i as int] == id@);
            return true;
        }
        i += 1;
    }
    assert(!ids(list@).contains(id@));
    false
}

/// Whether the list holds no identifier twice.
pub fn list_no_dup(list: &Vec<String>) -> (r: bool)
    ensures
        r == no_dup(ids(list@)),
{
    let mut i: usize = 0;
    while i < list.len()
        invariant
            i <= list.len(),
            forall|p: int, q: int| 0 <= p < q < list@.len() && p < i ==> ids(list@)[p] != ids(
                list@,
            )[q],
        decreases list.len() - i,
    {
        let mut j: usize = i + 1;
        while j < list.len()
            invariant
                i < list.len(),
                i + 1 <= j <= list.len(),
                forall|q: int| i < q < j ==> ids(list@)[i as int] != ids(list@)[q],
            decreases list.len() - j,
        {
            if list[i] == list[j] {
                assert(ids(list@)[i as int] == ids(list@)[j as int]);
                return false;
            }
            j += 1;
        }
        i += 1;
    }
    true
}

/// Whether no identifier stands in both lists.
pub fn lists_disjoint(a: &Vec<String>, b: &Vec<String>) -> (r: bool)
    ensures
        r == disjoint_lists(ids(a@), ids(b@)),
{
    let mut i: usize = 0;
    while i < a.len()
        invariant
            i <= a.len(),
            forall|p: int| 0 <= p < i ==> !ids(b@).contains(ids(a@)[p]),
        decreases a.len() - i,
    {
        if contains_id(b, &a[i]) {
            proof {
                assert(ids(a@).contains(ids(a@)[i as int]));
            }
            return false;
        }
        i += 1;
    }
    proof {
        assert forall|x: Seq<char>| ids(a@).contains(x) implies !ids(b@).contains(x) by {
            let p = choose|p: int| 0 <= p < ids(a@).len() && ids(a@)[p] == x;
            assert(!ids(b@).contains(ids(a@)[p]));
        }
    }
    true
}

/// Whether every identifier of `a` stands in `b` too.
pub fn lists_subset(a: &Vec<String>, b: &Vec<String>) -> (r: bool)
    ensures
        r == subset_ids(ids(a@), ids(b@)),
{
    let mut i: usize = 0;
    while i < a.len()
        invariant
            i <= a.len(),
            forall|p: int| 0 <= p < i ==> ids(b@).contains(ids(a@)[p]),
        decreases a.len() - i,
    {
        if !contains_id(b, &a[i]) {
            proof {
                assert(ids(a@).contains(ids(a@)[i as int]));
            }
            return false;
        }
        i += 1;
    }
    proof {
        assert forall|x: Seq<char>| ids(a@).contains(x) implies ids(b@).contains(x) by {
            let p = choose|p: int| 0 <= p < ids(a@).len() && ids(a@)[p] == x;
            assert(ids(b@).contains(ids(a@)[p]));
        }
    }
    true
}

impl State {
    /// Executable well-formedness check, for records handed in from
    /// outside the library (a persisted record, for instance).
    pub fn is_well_formed(&self) -> (r: bool)
        ensures
            r == self.wf(),
    {
        let g = list_no_dup(&self.guardians);
        let p = list_no_dup(&self.guardians_pending);
        let d = lists_disjoint(&self.guardians, &self.guardians_pending);
        let f = list_no_dup(&self.family_members);
        let v = lists_subset(&self.recovery_signatures, &self.guardians);
        let s = self.is_recovering || self.recovery_signatures.len() == 0;
        g && p && d && f && v && s
    }
}

/// A copy of the list holding the same identifiers in the same order.
pub fn clone_ids(list: &Vec<String>) -> (r: Vec<String>)
    ensures
        ids(r@) == ids(list@),
{
    let mut out: Vec<String> = Vec::new();
    let mut i: usize = 0;
    while i < list.len()
        invariant
            i <= list.len(),
            ids(out@) == ids(list@).take(i as int),
        decreases list.len() - i,
    {
        let ghost prev = out@;
        out.push(list[i].clone());
        proof {
            assert(ids(out@) =~= ids(prev).push(list@[i as int]@));
            assert(ids(list@).take(i + 1) =~= ids(list@).take(i as int).push(list@[i as int]@));
        }
        i += 1;
    }
    proof {
        assert(ids(list@).take(list@.len() as int) =~= ids(list@));
    }
    out
}

/// Removes every occurrence of `id` from the list, keeping the order of
/// the remaining entries.
pub fn remove_id(list: &mut Vec<String>, id: &String)
    ensures
        ids(final(list)@) == remove_all(ids(old(list)@), id@),
{
    let mut out: Vec<String> = Vec::new();
    let mut i: usize = 0;
    while i < list.len()
        invariant
            i <= list.len(),
            list == old(list),
            ids(out@) == remove_all(ids(list@).take(i as int), id@),
        decreases list.len() - i,
    {
        proof {
            assert(ids(list@).take(i + 1).drop_last() =~= ids(list@).take(i as int));
        }
        if list[i] == *id {
            proof {
                assert(ids(list@).take(i + 1).last() == id@);
            }
        } else {
            let entry = list[i].clone();
            let ghost prev = out@;
            out.push(entry);
            proof {
                assert(ids(out@) =~= ids(prev).push(list@[i as int]@));
                assert(ids(list@).take(i + 1).last() == list@[i as int]@);
            }
        }
        i += 1;
    }
    proof {
        assert(ids(list@).take(list@.len() as int) =~= ids(list@));
    }
    *list = out;
}

} // verus!
