//! The members of a conversation: a set of users keyed by id, each with a
//! status byte.

use vstd::prelude::*;
use vstd::std_specs::cmp::PartialEqSpecImpl;

verus! {

/// A conversation member. Two members are the same member when their ids
/// agree, whatever their status.
#[derive(Clone, Copy, Debug)]
pub struct Member {
    pub id: u128,
    pub status: i8,
}

impl PartialEq for Member {
    fn eq(&self, other: &Member) -> (r: bool) {
        self.id == other.id
    }
}

impl PartialEqSpecImpl for Member {
    open spec fn obeys_eq_spec() -> bool {
        true
    }

    open spec fn eq_spec(&self, other: &Member) -> bool {
        self.id == other.id
    }
}

impl Eq for Member {

}

/// The ids that occur in `s`.
pub open spec fn ids_of(s: Seq<Member>) -> Set<u128> {
    Set::new(|id: u128| has_id(s, id))
}

/// Whether some member of `s` has the id.
pub open spec fn has_id(s: Seq<Member>, id: u128) -> bool {
    exists|i: int| 0 <= i < s.len() && (#[trigger] s[i]).id == id
}

/// No id occurs twice in `s`.
pub open spec fn distinct_ids(s: Seq<Member>) -> bool {
    forall|i: int, j: int| 0 <= i < j < s.len() ==> s[i].id != s[j].id
}

/// `s` after `m` has joined: unchanged where a member with that id is
/// already there, else with `m` at the end.
pub open spec fn joined(s: Seq<Member>, m: Member) -> Seq<Member> {
    if has_id(s, m.id) {
        s
    } else {
        s.push(m)
    }
}

/// `s` without the members that have the id, the others in their order.
pub open spec fn without(s: Seq<Member>, id: u128) -> Seq<Member>
    decreases s.len(),
{
    if s.len() == 0 {
        s
    } else if s.last().id == id {
        without(s.drop_last(), id)
    } else {
        without(s.drop_last(), id).push(s.last())
    }
}

/// `s` after each of `ids` has joined with status 0, one after the other.
pub open spec fn joined_all(s: Seq<Member>, ids: Seq<u128>) -> Seq<Member>
    decreases ids.len(),
{
    if ids.len() == 0 {
        s
    } else {
        joined(joined_all(s, ids.drop_last()), Member { id: ids.last(), status: 0 })
    }
}

/// `s` after each of `ids` has left, one after the other.
pub open spec fn without_all(s: Seq<Member>, ids: Seq<u128>) -> Seq<Member>
    decreases ids.len(),
{
    if ids.len() == 0 {
        s
    } else {
        without(without_all(s, ids.drop_last()), ids.last())
    }
}

/// What is left after a removal is part of what was there, holds no member
/// with the removed id, and keeps every other member.
pub proof fn without_members(s: Seq<Member>, id: u128)
    ensures
        !has_id(without(s, id), id),
        forall|other: u128| other != id ==> (has_id(without(s, id), other) <==> has_id(s, other)),
        without(s, id).len() <= s.len(),
        forall|i: int|
            0 <= i < without(s, id).len() ==> s.contains(#[trigger] without(s, id)[i]),
        distinct_ids(s) ==> distinct_ids(without(s, id)),
    decreases s.len(),
{
    let r = without(s, id);
    if s.len() == 0 {
    } else {
        let front = s.drop_last();
        let rf = without(front, id);
        without_members(front, id);
        assert forall|i: int| 0 <= i < r.len() implies s.contains(#[trigger] r[i]) by {
            if i < rf.len() {
                assert(front.contains(rf[i]));
                let k = choose|k: int| 0 <= k < front.len() && front[k] == rf[i];
                assert(s[k] == rf[i]);
            } else {
                assert(r[i] == s.last());
                assert(s[s.len() - 1] == r[i]);
            }
        }
        assert forall|other: u128| other != id implies (has_id(r, other) <==> has_id(s, other)) by {
            if has_id(r, other) {
                let i = choose|i: int| 0 <= i < r.len() && (#[trigger] r[i]).id == other;
                assert(s.contains(r[i]));
                let k = choose|k: int| 0 <= k < s.len() && s[k] == r[i];
                assert(s[k].id == other);
            }
            if has_id(s, other) {
                let k = choose|k: int| 0 <= k < s.len() && (#[trigger] s[k]).id == other;
                if k < front.len() {
                    assert(front[k].id == other);
                    assert(has_id(front, other));
                    assert(has_id(rf, other));
                    let i = choose|i: int| 0 <= i < rf.len() && (#[trigger] rf[i]).id == other;
                    assert(r[i].id == other);
                } else {
                    assert(s.last().id == other);
                    assert(r[r.len() - 1].id == other);
                }
            }
        }
        if has_id(r, id) {
            let i = choose|i: int| 0 <= i < r.len() && (#[trigger] r[i]).id == id;
            if i < rf.len() {
                assert(rf[i].id == id);
                assert(has_id(rf, id));
            }
            assert(false);
        }
        if distinct_ids(s) {
            assert(distinct_ids(front)) by {
                assert forall|i: int, j: int| 0 <= i < j < front.len() implies front[i].id
                    != front[j].id by {
                    assert(s[i].id != s[j].id);
                }
            }
            assert forall|i: int, j: int| 0 <= i < j < r.len() implies r[i].id != r[j].id by {
                if j >= rf.len() {
                    assert(r[j] == s.last());
                    assert(front.contains(rf[i]));
                    let k = choose|k: int| 0 <= k < front.len() && front[k] == rf[i];
                    assert(s[k].id != s[s.len() - 1].id);
                }
            }
        }
    }
}

/// Joining adds exactly the new id, and keeps ids distinct.
pub proof fn joined_members(s: Seq<Member>, m: Member)
    ensures
        has_id(joined(s, m), m.id),
        forall|other: u128| other != m.id ==> (has_id(joined(s, m), other) <==> has_id(s, other)),
        distinct_ids(s) ==> distinct_ids(joined(s, m)),
{
    let r = joined(s, m);
    if has_id(s, m.id) {
    } else {
        assert(r[s.len() as int].id == m.id);
        assert forall|other: u128| other != m.id implies (has_id(r, other) <==> has_id(s, other)) by {
            if has_id(r, other) {
                let i = choose|i: int| 0 <= i < r.len() && (#[trigger] r[i]).id == other;
                assert(s[i].id == other);
            }
            if has_id(s, other) {
                let i = choose|i: int| 0 <= i < s.len() && (#[trigger] s[i]).id == other;
                assert(r[i].id == other);
            }
        }
        if distinct_ids(s) {
            assert forall|i: int, j: int| 0 <= i < j < r.len() implies r[i].id != r[j].id by {
                if j == s.len() {
                    assert(s[i].id != m.id);
                } else {
                    assert(s[i].id != s[j].id);
                }
            }
        }
    }
}

/// After all of `ids` have joined, the members are those who were members
/// and those who joined, and no id occurs twice unless one did before.
pub proof fn joined_all_members(s: Seq<Member>, ids: Seq<u128>)
    ensures
        forall|id: u128|
            #[trigger] has_id(joined_all(s, ids), id) <==> has_id(s, id) || ids.contains(id),
        distinct_ids(s) ==> distinct_ids(joined_all(s, ids)),
    decreases ids.len(),
{
    if ids.len() > 0 {
        let front = ids.drop_last();
        let before = joined_all(s, front);
        let m = Member { id: ids.last(), status: 0 };
        joined_all_members(s, front);
        joined_members(before, m);
        assert forall|id: u128| #[trigger]
            has_id(joined_all(s, ids), id) <==> has_id(s, id) || ids.contains(id) by {
            assert(has_id(before, id) <==> has_id(s, id) || front.contains(id));
            if front.contains(id) {
                let k = choose|k: int| 0 <= k < front.len() && front[k] == id;
                assert(ids[k] == id);
            }
            if ids.contains(id) && id != ids.last() {
                let k = choose|k: int| 0 <= k < ids.len() && ids[k] == id;
                assert(front[k] == id);
            }
            if id == ids.last() {
                assert(ids[ids.len() - 1] == id);
            }
        }
    } else {
        assert forall|id: u128| !ids.contains(id) by {}
    }
}

/// After all of `ids` have left, the members are those who were members
/// and did not leave, and no id occurs twice unless one did before.
pub proof fn without_all_members(s: Seq<Member>, ids: Seq<u128>)
    ensures
        forall|id: u128|
            #[trigger] has_id(without_all(s, ids), id) <==> has_id(s, id) && !ids.contains(id),
        distinct_ids(s) ==> distinct_ids(without_all(s, ids)),
    decreases ids.len(),
{
    if ids.len() > 0 {
        let front = ids.drop_last();
        let before = without_all(s, front);
        without_all_members(s, front);
        without_members(before, ids.last());
        assert forall|id: u128| #[trigger]
            has_id(without_all(s, ids), id) <==> has_id(s, id) && !ids.contains(id) by {
            assert(has_id(before, id) <==> has_id(s, id) && !front.contains(id));
            if front.contains(id) {
                let k = choose|k: int| 0 <= k < front.len() && front[k] == id;
                assert(ids[k] == id);
            }
            if ids.contains(id) && id != ids.last() {
                let k = choose|k: int| 0 <= k < ids.len() && ids[k] == id;
                assert(front[k] == id);
            }
            if id == ids.last() {
                assert(ids[ids.len() - 1] == id);
            }
        }
    } else {
        assert forall|id: u128| !ids.contains(id) by {}
    }
}

/// The members of a conversation. A set that is made and changed by the
/// functions below holds no id twice.
#[derive(Debug, PartialEq, Eq)]
pub struct MemberSet {
    items: Vec<Member>,
}

impl View for MemberSet {
    type V = Seq<Member>;

    closed spec fn view(&self) -> Seq<Member> {
        self.items@
    }
}

impl Clone for MemberSet {
    fn clone(&self) -> (r: Self)
        ensures
            r@ == self@,
    {
        let mut items: Vec<Member> = Vec::new();
        let mut i: usize = 0;
        while i < self.items.len()
            invariant
                i <= self.items.len(),
                items@ == self.items@.take(i as int),
            decreases self.items.len() - i,
        {
            items.push(self.items[i]);
            assert(items@ =~= self.items@.take(i + 1));
            i = i + 1;
        }
        assert(self.items@.take(i as int) =~= self.items@);
        MemberSet { items }
    }
}

impl MemberSet {
    /// The set without members.
    pub fn new() -> (r: Self)
        ensures
            r@ == Seq::<Member>::empty(),
            distinct_ids(r@),
    {
        MemberSet { items: Vec::new() }
    }

    /// The set of the given members; of two with one id the first stays.
    pub fn from_members(members: &Vec<Member>) -> (r: Self)
        ensures
            r@ == collected(members@),
            distinct_ids(r@),
    {
        proof {
            collected_is_distinct(members@);
        }
        let mut set = MemberSet::new();
        let mut i: usize = 0;
        while i < members.len()
            invariant
                i <= members.len(),
                set@ == collected(members@.take(i as int)),
            decreases members.len() - i,
        {
            assert(members@.take(i + 1).drop_last() =~= members@.take(i as int));
            set.insert(members[i]);
            i = i + 1;
        }
        assert(members@.take(i as int) =~= members@);
        set
    }

    /// The number of members.
    pub fn len(&self) -> (n: usize)
        ensures
            n == self@.len(),
    {
        self.items.len()
    }

    /// The member at position `i`.
    pub fn get(&self, i: usize) -> (m: Member)
        requires
            i < self@.len(),
        ensures
            m == self@[i as int],
    {
        self.items[i]
    }

    /// The members in their order.
    pub fn to_vec(&self) -> (v: Vec<Member>)
        ensures
            v@ == self@,
    {
        let c = self.clone();
        c.items
    }

    /// Whether a member with the id is in the set.
    pub fn contains(&self, id: u128) -> (r: bool)
        ensures
            r == has_id(self@, id),
    {
        let mut i: usize = 0;
        while i < self.items.len()
            invariant
                i <= self.items.len(),
                forall|j: int| 0 <= j < i ==> self.items@[j].id != id,
            decreases self.items.len() - i,
        {
            if self.items[i].id == id {
                return true;
            }
            i = i + 1;
        }
        false
    }

    /// Adds the member unless one with its id is there already; says
    /// whether it was added.
    pub fn insert(&mut self, m: Member) -> (added: bool)
        ensures
            final(self)@ == joined(old(self)@, m),
            added == !has_id(old(self)@, m.id),
            distinct_ids(old(self)@) ==> distinct_ids(final(self)@),
    {
        proof {
            joined_members(self@, m);
        }
        if self.contains(m.id) {
            false
        } else {
            self.items.push(m);
            true
        }
    }

    /// Removes the member with the id; says whether there was one.
    pub fn remove(&mut self, id: u128) -> (removed: bool)
        ensures
            final(self)@ == without(old(self)@, id),
            removed == has_id(old(self)@, id),
            distinct_ids(old(self)@) ==> distinct_ids(final(self)@),
    {
        proof {
            without_members(self@, id);
        }
        let mut kept: Vec<Member> = Vec::new();
        let mut found = false;
        let mut i: usize = 0;
        while i < self.items.len()
            invariant
                i <= self.items.len(),
                kept@ == without(self.items@.take(i as int), id),
                found == has_id(self.items@.take(i as int), id),
            decreases self.items.len() - i,
        {
            let m = self.items[i];
            let ghost before = self.items@.take(i as int);
            let ghost after = self.items@.take(i + 1);
            assert(after.drop_last() =~= before);
            assert(after.last() == m);
            if m.id == id {
                found = true;
                assert(after[i as int].id == id);
            } else {
                kept.push(m);
                proof {
                    if has_id(after, id) {
                        let k = choose|k: int| 0 <= k < after.len() && (#[trigger] after[k]).id == id;
                        assert(before[k].id == id);
                    }
                    if has_id(before, id) {
                        let k = choose|k: int| 0 <= k < before.len() && (#[trigger] before[k]).id == id;
                        assert(after[k].id == id);
                    }
                }
            }
            i = i + 1;
        }
        assert(self.items@.take(i as int) =~= self.items@);
        self.items = kept;
        found
    }
}

/// The set that the members make when they join an empty conversation one
/// after the other.
pub open spec fn collected(members: Seq<Member>) -> Seq<Member>
    decreases members.len(),
{
    if members.len() == 0 {
        members
    } else {
        joined(collected(members.drop_last()), members.last())
    }
}

/// Members that joined an empty conversation one after the other have
/// different ids.
pub proof fn collected_is_distinct(members: Seq<Member>)
    ensures
        distinct_ids(collected(members)),
    decreases members.len(),
{
    if members.len() > 0 {
        collected_is_distinct(members.drop_last());
        joined_members(collected(members.drop_last()), members.last());
    }
}

} // verus!
