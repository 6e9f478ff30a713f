//! The lists of order ids by principal.

use vstd::prelude::*;
use soroban_sdk::{Address, Env};
use crate::host::{
    clone_address, clone_id_list, id_count, id_list, new_id_list, push_id, same_address,
};
use crate::state::{appended, listed};

verus! {

/// The order ids of one principal, oldest first.
struct IndexEntry {
    who: Address,
    ids: soroban_sdk::Vec<u32>,
}

/// For each principal that has taken part in an order, the ids of those
/// orders in the order in which they were added.
pub struct OrderIndex {
    entries: Vec<IndexEntry>,
}

/// Entry `i` of `entries` is that of `who`.
spec fn is_entry_of(entries: Seq<IndexEntry>, i: int, who: Address) -> bool {
    0 <= i < entries.len() && entries[i].who == who
}

/// The place of the entry of `who`, where there is one.
spec fn place_of(entries: Seq<IndexEntry>, who: Address) -> int {
    choose|i: int| is_entry_of(entries, i, who)
}

/// No principal has two entries.
spec fn one_entry_each(entries: Seq<IndexEntry>) -> bool {
    forall|i: int, j: int|
        0 <= i < entries.len() && 0 <= j < entries.len() && #[trigger] entries[i].who
            == #[trigger] entries[j].who ==> i == j
}

/// The lists of `entries` by principal.
spec fn index_of(entries: Seq<IndexEntry>) -> Map<Address, Seq<u32>> {
    Map::new(
        |who: Address| exists|i: int| is_entry_of(entries, i, who),
        |who: Address| id_list(entries[place_of(entries, who)].ids),
    )
}

/// With one entry each, the entry of a principal is the one that holds its
/// list.
proof fn lemma_place_is_unique(entries: Seq<IndexEntry>, i: int, who: Address)
    requires
        one_entry_each(entries),
        is_entry_of(entries, i, who),
    ensures
        place_of(entries, who) == i,
        index_of(entries).dom().contains(who),
        index_of(entries)[who] == id_list(entries[i].ids),
{
    let p = place_of(entries, who);
    assert(is_entry_of(entries, p, who));
    assert(entries[p].who == entries[i].who);
}

/// Replacing the entry of a principal replaces its list and no other.
proof fn lemma_replaced_entry(entries: Seq<IndexEntry>, i: int, entry: IndexEntry)
    requires
        one_entry_each(entries),
        0 <= i < entries.len(),
        entry.who == entries[i].who,
    ensures
        one_entry_each(entries.update(i, entry)),
        index_of(entries.update(i, entry)) == index_of(entries).insert(
            entry.who,
            id_list(entry.ids),
        ),
{
    let after = entries.update(i, entry);
    let who = entry.who;
    assert forall|a: int, b: int|
        0 <= a < after.len() && 0 <= b < after.len() && #[trigger] after[a].who
            == #[trigger] after[b].who implies a == b by {
        assert(after[a].who == entries[a].who);
        assert(after[b].who == entries[b].who);
    }
    assert(is_entry_of(after, i, who));
    lemma_place_is_unique(after, i, who);
    let expected = index_of(entries).insert(who, id_list(entry.ids));
    assert forall|w: Address| index_of(after).dom().contains(w) <==> expected.dom().contains(
        w,
    ) by {
        if index_of(after).dom().contains(w) {
            let k = choose|k: int| is_entry_of(after, k, w);
            assert(is_entry_of(entries, k, w));
        }
        if index_of(entries).dom().contains(w) {
            let k = choose|k: int| is_entry_of(entries, k, w);
            assert(is_entry_of(after, k, w));
        }
    }
    assert forall|w: Address| index_of(after).dom().contains(w) implies index_of(after)[w]
        == expected[w] by {
        if w != who {
            let k = choose|k: int| is_entry_of(after, k, w);
            assert(is_entry_of(entries, k, w));
            lemma_place_is_unique(after, k, w);
            lemma_place_is_unique(entries, k, w);
        }
    }
    assert(index_of(after) =~= expected);
}

/// Adding an entry for a principal that had none adds its list and changes
/// no other.
proof fn lemma_added_entry(entries: Seq<IndexEntry>, entry: IndexEntry)
    requires
        one_entry_each(entries),
        forall|i: int| 0 <= i < entries.len() ==> !is_entry_of(entries, i, entry.who),
    ensures
        one_entry_each(entries.push(entry)),
        !index_of(entries).dom().contains(entry.who),
        index_of(entries.push(entry)) == index_of(entries).insert(
            entry.who,
            id_list(entry.ids),
        ),
{
    let after = entries.push(entry);
    let who = entry.who;
    let last = entries.len() as int;
    assert forall|a: int, b: int|
        0 <= a < after.len() && 0 <= b < after.len() && #[trigger] after[a].who
            == #[trigger] after[b].who implies a == b by {
        if a < last {
            assert(after[a] == entries[a]);
            assert(!is_entry_of(entries, a, who));
        }
        if b < last {
            assert(after[b] == entries[b]);
            assert(!is_entry_of(entries, b, who));
        }
    }
    assert(!index_of(entries).dom().contains(who)) by {
        if index_of(entries).dom().contains(who) {
            let k = choose|k: int| is_entry_of(entries, k, who);
            assert(!is_entry_of(entries, k, who));
        }
    }
    assert(is_entry_of(after, last, who));
    lemma_place_is_unique(after, last, who);
    let expected = index_of(entries).insert(who, id_list(entry.ids));
    assert forall|w: Address| index_of(after).dom().contains(w) <==> expected.dom().contains(
        w,
    ) by {
        if index_of(after).dom().contains(w) && w != who {
            let k = choose|k: int| is_entry_of(after, k, w);
            assert(is_entry_of(entries, k, w));
        }
        if index_of(entries).dom().contains(w) {
            let k = choose|k: int| is_entry_of(entries, k, w);
            assert(is_entry_of(after, k, w));
        }
    }
    assert forall|w: Address| index_of(after).dom().contains(w) implies index_of(after)[w]
        == expected[w] by {
        if w != who {
            let k = choose|k: int| is_entry_of(after, k, w);
            assert(is_entry_of(entries, k, w));
            lemma_place_is_unique(after, k, w);
            lemma_place_is_unique(entries, k, w);
        }
    }
    assert(index_of(after) =~= expected);
}

impl View for OrderIndex {
    type V = Map<Address, Seq<u32>>;

    /// The recorded lists by principal. A principal without orders has no
    /// entry.
    closed spec fn view(&self) -> Map<Address, Seq<u32>> {
        index_of(self.entries@)
    }
}

impl OrderIndex {
    /// No principal is recorded twice.
    pub closed spec fn wf(&self) -> bool {
        one_entry_each(self.entries@)
    }

    /// An index without entries.
    pub fn new() -> (index: OrderIndex)
        ensures
            index.wf(),
            index@ == Map::<Address, Seq<u32>>::empty(),
    {
        let index = OrderIndex { entries: Vec::new() };
        assert(index@ =~= Map::<Address, Seq<u32>>::empty());
        index
    }

    /// The place of the entry of `who`, if there is one.
    fn find(&self, who: &Address) -> (place: Option<usize>)
        ensures
            match place {
                Some(i) => is_entry_of(self.entries@, i as int, *who),
                None => forall|i: int|
                    0 <= i < self.entries.len() ==> !is_entry_of(self.entries@, i, *who),
            },
    {
        let mut i: usize = 0;
        while i < self.entries.len()
            invariant
                i <= self.entries.len(),
                forall|k: int| 0 <= k < i ==> !is_entry_of(self.entries@, k, *who),
            decreases self.entries.len() - i,
        {
            if same_address(&self.entries[i].who, who) {
                return Some(i);
            }
            i += 1;
        }
        None
    }

    /// The ids recorded for `who`, oldest first; an empty list where `who` has
    /// none.
    pub fn ids(&self, env: &Env, who: &Address) -> (ids: soroban_sdk::Vec<u32>)
        requires
            self.wf(),
        ensures
            id_list(ids) == listed(self@, *who),
    {
        match self.find(who) {
            Some(i) => {
                proof {
                    lemma_place_is_unique(self.entries@, i as int, *who);
                }
                clone_id_list(&self.entries[i].ids)
            },
            None => {
                proof {
                    if self@.dom().contains(*who) {
                        let k = choose|k: int| is_entry_of(self.entries@, k, *who);
                        assert(!is_entry_of(self.entries@, k, *who));
                    }
                }
                new_id_list(env)
            },
        }
    }

    /// How many ids are recorded for `who`.
    pub fn count(&self, who: &Address) -> (count: u32)
        requires
            self.wf(),
        ensures
            count == listed(self@, *who).len(),
    {
        match self.find(who) {
            Some(i) => {
                proof {
                    lemma_place_is_unique(self.entries@, i as int, *who);
                }
                id_count(&self.entries[i].ids)
            },
            None => {
                proof {
                    if self@.dom().contains(*who) {
                        let k = choose|k: int| is_entry_of(self.entries@, k, *who);
                        assert(!is_entry_of(self.entries@, k, *who));
                    }
                }
                0
            },
        }
    }

    /// Records `ids` as the whole list of `who`, in place of the list that
    /// stood there.
    pub fn put(&mut self, who: &Address, ids: soroban_sdk::Vec<u32>)
        requires
            old(self).wf(),
        ensures
            final(self).wf(),
            final(self)@ == old(self)@.insert(*who, id_list(ids)),
    {
        let entry = IndexEntry { who: clone_address(who), ids };
        match self.find(who) {
            Some(i) => {
                proof {
                    lemma_replaced_entry(self.entries@, i as int, entry);
                }
                self.entries.set(i, entry);
            },
            None => {
                proof {
                    lemma_added_entry(self.entries@, entry);
                }
                self.entries.push(entry);
            },
        }
    }

    /// Adds `id` at the end of the ids of `who`, whose list starts here if
    /// there was none. The list must have room for one more id.
    pub fn append(&mut self, env: &Env, who: &Address, id: u32)
        requires
            old(self).wf(),
            listed(old(self)@, *who).len() < u32::MAX,
        ensures
            final(self).wf(),
            final(self)@ == appended(old(self)@, *who, id),
    {
        let mut ids = self.ids(env, who);
        push_id(&mut ids, id);
        self.put(who, ids);
    }
}

} // verus!
