//! Calls that wait for the host, each under the id of its tool call.

use vstd::prelude::*;

use crate::text::same_text;

verus! {

/// What is parked under ids, at most one slot under each.
pub struct Parked<S> {
    slots: Vec<(String, S)>,
}

/// Whether a slot is parked under `id`.
pub open spec fn holds_id<S>(slots: Seq<(String, S)>, id: Seq<char>) -> bool {
    exists|i: int| 0 <= i < slots.len() && (#[trigger] slots[i]).0@ == id
}

/// The slots by their ids.
pub open spec fn slots_by_id<S>(slots: Seq<(String, S)>) -> Map<Seq<char>, S> {
    Map::new(
        |id: Seq<char>| holds_id(slots, id),
        |id: Seq<char>|
            slots[choose|i: int| 0 <= i < slots.len() && (#[trigger] slots[i]).0@ == id].1,
    )
}

impl<S> View for Parked<S> {
    type V = Map<Seq<char>, S>;

    closed spec fn view(&self) -> Map<Seq<char>, S> {
        slots_by_id(self.slots@)
    }
}

impl<S> Parked<S> {
    /// No id occurs twice.
    pub closed spec fn wf(&self) -> bool {
        forall|i: int, j: int|
            #![trigger self.slots@[i], self.slots@[j]]
            0 <= i < j < self.slots@.len() ==> self.slots@[i].0@ != self.slots@[j].0@
    }

    /// Nothing is parked at first.
    pub fn new() -> (parked: Parked<S>)
        ensures
            parked.wf(),
            parked@ == Map::<Seq<char>, S>::empty(),
    {
        let parked = Parked { slots: Vec::new() };
        assert(parked@ =~= Map::<Seq<char>, S>::empty());
        parked
    }

    /// The place of the slot under `id`.
    fn find(&self, id: &str) -> (place: Option<usize>)
        ensures
            match place {
                Some(i) => i < self.slots@.len() && self.slots@[i as int].0@ == id@,
                None => !holds_id(self.slots@, id@),
            },
    {
        let mut i: usize = 0;
        while i < self.slots.len()
            invariant
                i <= self.slots@.len(),
                forall|j: int| 0 <= j < i ==> (#[trigger] self.slots@[j]).0@ != id@,
            decreases self.slots@.len() - i,
        {
            if same_text(self.slots[i].0.as_str(), id) {
                return Some(i);
            }
            i += 1;
        }
        None
    }

    /// Takes the slot under `id` out.
    pub fn take(&mut self, id: &str) -> (slot: Option<S>)
        requires
            old(self).wf(),
        ensures
            final(self).wf(),
            final(self)@ == old(self)@.remove(id@),
            match slot {
                Some(slot) => old(self)@.contains_key(id@) && slot == old(self)@[id@],
                None => !old(self)@.contains_key(id@),
            },
    {
        match self.find(id) {
            Some(i) => {
                let ghost before = self.slots@;
                let (key, slot): (String, S) = self.slots.remove(i);
                proof {
                    let after = self.slots@;
                    assert(after =~= before.remove(i as int));
                    assert forall|k: int| 0 <= k < after.len() implies (#[trigger] after[k])
                        == before[if k < i { k } else { k + 1 }] by {}
                    assert(before[i as int].0@ == id@);
                    assert forall|other: Seq<char>| #[trigger]
                        holds_id(after, other) == (other != id@ && holds_id(before, other)) by {
                        if holds_id(after, other) {
                            let k = choose|k: int|
                                0 <= k < after.len() && (#[trigger] after[k]).0@ == other;
                            let m = if k < i { k } else { k + 1 };
                            assert(before[m].0@ == other);
                        }
                        if other != id@ && holds_id(before, other) {
                            let m = choose|m: int|
                                0 <= m < before.len() && (#[trigger] before[m]).0@ == other;
                            let k = if m < i { m } else { m - 1 };
                            assert(after[k] == before[m]);
                        }
                    }
                    assert(self@ =~= old(self)@.remove(id@)) by {
                        assert forall|other: Seq<char>| #[trigger]
                            slots_by_id(after).contains_key(other) implies slots_by_id(after)[other]
                            == slots_by_id(before)[other] by {
                            assert(holds_id(after, other));
                            let k = choose|k: int|
                                0 <= k < after.len() && (#[trigger] after[k]).0@ == other;
                            let m = choose|m: int|
                                0 <= m < before.len() && (#[trigger] before[m]).0@ == other;
                            assert(holds_id(before, other));
                            assert(before[m].0@ == other);
                            assert(before[if k < i { k } else { k + 1 }].0@ == other);
                        }
                    }
                }
                Some(slot)
            },
            None => {
                assert(self@ =~= old(self)@.remove(id@));
                None
            },
        }
    }

    /// Parks `slot` under `id`; a slot that was there before is dropped.
    pub fn insert(&mut self, id: &str, slot: S)
        requires
            old(self).wf(),
        ensures
            final(self).wf(),
            final(self)@ == old(self)@.insert(id@, slot),
    {
        let _ = self.take(id);
        let ghost before = self.slots@;
        assert(slots_by_id(before) == old(self)@.remove(id@));
        assert(!slots_by_id(before).contains_key(id@));
        assert(!holds_id(before, id@));
        self.slots.push((id.to_owned(), slot));
        proof {
            let after = self.slots@;
            assert(after.len() == before.len() + 1);
            assert forall|k: int| 0 <= k < before.len() implies #[trigger] after[k]
                == before[k] by {}
            assert forall|k: int| 0 <= k < before.len() implies (#[trigger] before[k]).0@
                != id@ by {}
            assert forall|other: Seq<char>| #[trigger]
                holds_id(after, other) == (other == id@ || holds_id(before, other)) by {
                if holds_id(before, other) {
                    let m = choose|m: int|
                        0 <= m < before.len() && (#[trigger] before[m]).0@ == other;
                    assert(after[m] == before[m]);
                }
                if other == id@ {
                    assert(after[before.len() as int].0@ == id@);
                }
                if holds_id(after, other) && other != id@ {
                    let k = choose|k: int|
                        0 <= k < after.len() && (#[trigger] after[k]).0@ == other;
                    assert(before[k].0@ == other);
                }
            }
            let whole = old(self)@;
            assert forall|other: Seq<char>| #[trigger]
                slots_by_id(after).contains_key(other) == whole.insert(id@, slot).contains_key(
                    other,
                ) by {
                assert(holds_id(after, other) == (other == id@ || holds_id(before, other)));
                assert(slots_by_id(before).contains_key(other) == holds_id(before, other));
            }
            assert forall|other: Seq<char>| #[trigger]
                slots_by_id(after).contains_key(other) implies slots_by_id(after)[other]
                == whole.insert(id@, slot)[other] by {
                assert(holds_id(after, other));
                let k = choose|k: int| 0 <= k < after.len() && (#[trigger] after[k]).0@ == other;
                if other == id@ {
                    assert(k == before.len());
                } else {
                    assert(holds_id(before, other));
                    let m = choose|m: int|
                        0 <= m < before.len() && (#[trigger] before[m]).0@ == other;
                    assert(before[m].0@ == other);
                    assert(before[k].0@ == other);
                    assert(slots_by_id(before)[other] == whole[other]);
                }
            }
            assert(self@ =~= whole.insert(id@, slot));
        }
    }
}

} // verus!
