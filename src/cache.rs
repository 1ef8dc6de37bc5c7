use std::collections::VecDeque;
use vstd::prelude::*;

verus! {

/// The identifiers of a cache after `id` is offered to it: unchanged where
/// `id` is resident, else `id` joins at the back and, past `capacity`, the
/// oldest identifier leaves from the front.
pub open spec fn after_insert(
    ids: Seq<Seq<char>>,
    capacity: nat,
    id: Seq<char>,
) -> Seq<Seq<char>> {
    if ids.contains(id) {
        ids
    } else if ids.len() + 1 > capacity {
        ids.push(id).drop_first()
    } else {
        ids.push(id)
    }
}

/// The identifiers of a cache after each of `offered` is offered in turn.
pub open spec fn after_inserts(
    ids: Seq<Seq<char>>,
    capacity: nat,
    offered: Seq<Seq<char>>,
) -> Seq<Seq<char>>
    decreases offered.len(),
{
    if offered.len() == 0 {
        ids
    } else {
        after_insert(after_inserts(ids, capacity, offered.drop_last()), capacity, offered.last())
    }
}

/// A bounded set of recently seen identifiers, evicted oldest first.
pub struct CacheSet {
    capacity: usize,
    queue: VecDeque<String>,
}

impl View for CacheSet {
    /// The resident identifiers, oldest first.
    type V = Seq<Seq<char>>;

    closed spec fn view(&self) -> Seq<Seq<char>> {
        self.queue@.map_values(|s: String| s@)
    }
}

impl CacheSet {
    /// The most identifiers the cache holds.
    pub closed spec fn spec_capacity(&self) -> nat {
        self.capacity as nat
    }

    /// At most `capacity` identifiers are resident, none twice.
    pub open spec fn wf(&self) -> bool {
        &&& self@.len() <= self.spec_capacity()
        &&& self@.no_duplicates()
    }

    pub fn new(capacity: usize) -> (r: Self)
        ensures
            r.wf(),
            r@ == Seq::<Seq<char>>::empty(),
            r.spec_capacity() == capacity,
    {
        let r = Self { capacity, queue: VecDeque::new() };
        assert(r@ =~= Seq::<Seq<char>>::empty());
        r
    }

    /// Whether `value` is resident.
    pub fn contains(&self, value: &String) -> (r: bool)
        ensures
            r == self@.contains(value@),
    {
        let n = self.queue.len();
        let mut i: usize = 0;
        while i < n
            invariant
                n == self.queue@.len(),
                self@.len() == n,
                i <= n,
                forall|j: int| 0 <= j < i ==> self@[j] != value@,
            decreases n - i,
        {
            if self.queue[i] == *value {
                assert(self@[i as int] == value@);
                return true;
            }
            i = i + 1;
        }
        false
    }

    /// Marks `value` resident; true iff it was not resident before.
    pub fn insert(&mut self, value: &String) -> (r: bool)
        requires
            old(self).wf(),
        ensures
            final(self).wf(),
            r == !old(self)@.contains(value@),
            final(self)@ == after_insert(old(self)@, old(self).spec_capacity(), value@),
            final(self).spec_capacity() == old(self).spec_capacity(),
    {
        if self.contains(value) {
            return false;
        }
        let ghost before = self@;
        self.queue.push_back(value.clone());
        assert(self@ =~= before.push(value@));
        if self.queue.len() > self.capacity {
            let _ = self.queue.pop_front();
            assert(self@ =~= before.push(value@).drop_first());
        }
        proof {
            assert(before.push(value@).no_duplicates()) by {
                assert forall|i: int, j: int|
                    0 <= i < j < before.len() + 1 implies before.push(value@)[i] != before.push(
                        value@,
                    )[j] by {
                    if j == before.len() {
                        assert(before[i] == before.push(value@)[i]);
                    }
                }
            }
        }
        true
    }
}

/// Offered to a cache that began empty, an identifier never offered before is
/// not resident, so its first `insert` returns true.
pub proof fn lemma_first_insert_is_new(capacity: nat, offered: Seq<Seq<char>>, id: Seq<char>)
    requires
        !offered.contains(id),
    ensures
        !after_inserts(Seq::empty(), capacity, offered).contains(id),
    decreases offered.len(),
{
    if offered.len() > 0 {
        let prefix = offered.drop_last();
        assert forall|k: int| 0 <= k < prefix.len() implies prefix[k] != id by {
            assert(prefix[k] == offered[k]);
        }
        lemma_first_insert_is_new(capacity, prefix, id);
        let before = after_inserts(Seq::empty(), capacity, prefix);
        let last = offered.last();
        assert(last != id) by {
            assert(offered[offered.len() - 1] == last);
        }
        if !before.contains(last) {
            if before.len() + 1 > capacity {
                assert forall|k: int| 0 <= k < before.push(last).drop_first().len() implies
                    before.push(last).drop_first()[k] != id by {
                    assert(before.push(last).drop_first()[k] == before.push(last)[k + 1]);
                }
            } else {
                assert forall|k: int| 0 <= k < before.push(last).len() implies before.push(last)[k]
                    != id by {
                    assert(before.push(last)[k] == if k < before.len() { before[k] } else { last });
                }
            }
        }
    }
}

/// In a cache that can hold anything at all, an identifier is resident right
/// after it was inserted, so an immediate repeat returns false.
pub proof fn lemma_repeat_insert_is_old(ids: Seq<Seq<char>>, capacity: nat, id: Seq<char>)
    requires
        capacity > 0,
        ids.len() <= capacity,
    ensures
        after_insert(ids, capacity, id).contains(id),
{
    if !ids.contains(id) {
        if ids.len() + 1 > capacity {
            assert(ids.push(id).drop_first()[ids.len() - 1] == id);
        } else {
            assert(ids.push(id)[ids.len() as int] == id);
        }
    }
}

/// Offered distinct identifiers from empty, a cache holds the newest
/// `capacity` of them, oldest first.
pub proof fn lemma_holds_newest(capacity: nat, offered: Seq<Seq<char>>)
    requires
        offered.no_duplicates(),
    ensures
        after_inserts(Seq::empty(), capacity, offered) == offered.subrange(
            if offered.len() > capacity { offered.len() - capacity } else { 0 },
            offered.len() as int,
        ),
    decreases offered.len(),
{
    let n = offered.len() as int;
    if n == 0 {
        assert(offered.subrange(0, 0) =~= Seq::<Seq<char>>::empty());
    } else {
        let prefix = offered.drop_last();
        assert(prefix.no_duplicates()) by {
            assert forall|i: int, j: int| 0 <= i < j < prefix.len() implies prefix[i]
                != prefix[j] by {
                assert(prefix[i] == offered[i] && prefix[j] == offered[j]);
            }
        }
        lemma_holds_newest(capacity, prefix);
        let s: int = if n - 1 > capacity { n - 1 - capacity } else { 0 };
        let before = after_inserts(Seq::empty(), capacity, prefix);
        assert(before == offered.subrange(s, n - 1)) by {
            assert(prefix.subrange(s, n - 1) =~= offered.subrange(s, n - 1));
        }
        let last = offered.last();
        assert(!before.contains(last)) by {
            assert forall|k: int| 0 <= k < before.len() implies before[k] != last by {
                assert(before[k] == offered[s + k]);
                assert(offered[n - 1] == last);
            }
        }
        if before.len() + 1 > capacity {
            assert(before.push(last).drop_first() =~= offered.subrange(s + 1, n));
        } else {
            assert(before.push(last) =~= offered.subrange(s, n));
        }
    }
}

/// After `capacity + 1` distinct identifiers are inserted into an empty
/// cache, the first of them is no longer resident: eviction is oldest first.
pub proof fn lemma_fifo_eviction(capacity: nat, offered: Seq<Seq<char>>)
    requires
        offered.no_duplicates(),
        offered.len() == capacity + 1,
    ensures
        !after_inserts(Seq::empty(), capacity, offered).contains(offered[0]),
{
    lemma_holds_newest(capacity, offered);
    let rest = after_inserts(Seq::empty(), capacity, offered);
    assert forall|k: int| 0 <= k < rest.len() implies rest[k] != offered[0] by {
        assert(rest[k] == offered[1 + k]);
    }
}

/// While the offered identifiers fit in the room left, nothing is evicted: a
/// resident identifier stays resident whatever is offered, repeats included.
pub proof fn lemma_resident_survives(
    ids: Seq<Seq<char>>,
    capacity: nat,
    offered: Seq<Seq<char>>,
    id: Seq<char>,
)
    requires
        ids.contains(id),
        ids.len() + offered.len() <= capacity,
    ensures
        after_inserts(ids, capacity, offered).contains(id),
        after_inserts(ids, capacity, offered).len() <= ids.len() + offered.len(),
    decreases offered.len(),
{
    if offered.len() > 0 {
        let prefix = offered.drop_last();
        lemma_resident_survives(ids, capacity, prefix, id);
        let before = after_inserts(ids, capacity, prefix);
        let last = offered.last();
        if !before.contains(last) {
            let k = choose|k: int| 0 <= k < before.len() && before[k] == id;
            assert(before.push(last)[k] == id);
        }
    }
}

} // verus!
