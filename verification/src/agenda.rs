//! Listings of text keys by time, equal times by key.
use crate::text;
use vstd::prelude::*;

verus! {

/// Key `a` is listed before key `b`.
pub open spec fn earlier(times: Map<Seq<char>, u64>, a: Seq<char>, b: Seq<char>) -> bool {
    times[a] < times[b] || (times[a] == times[b] && text::lt(a, b))
}

/// `keys` holds exactly the keys of `times`, in listing order.
pub open spec fn is_agenda(times: Map<Seq<char>, u64>, keys: Seq<Seq<char>>) -> bool {
    &&& forall|i: int, j: int|
        0 <= i < j < keys.len() ==> earlier(times, #[trigger] keys[i], #[trigger] keys[j])
    &&& forall|k: Seq<char>| times.dom().contains(k) <==> #[trigger] keys.contains(k)
}

/// The keys of `times` in listing order.
pub open spec fn agenda(times: Map<Seq<char>, u64>) -> Seq<Seq<char>> {
    choose|keys: Seq<Seq<char>>| is_agenda(times, keys)
}

proof fn earlier_irreflexive(times: Map<Seq<char>, u64>, a: Seq<char>)
    ensures
        !earlier(times, a, a),
{
    text::lt_irreflexive(a);
}

proof fn earlier_transitive(
    times: Map<Seq<char>, u64>,
    a: Seq<char>,
    b: Seq<char>,
    c: Seq<char>,
)
    requires
        earlier(times, a, b),
        earlier(times, b, c),
    ensures
        earlier(times, a, c),
{
    if times[a] == times[b] && times[b] == times[c] {
        text::lt_transitive(a, b, c);
    }
}

/// Two listings of the same keys are the same listing.
pub proof fn agenda_unique(times: Map<Seq<char>, u64>, a: Seq<Seq<char>>, b: Seq<Seq<char>>)
    requires
        forall|i: int, j: int|
            0 <= i < j < a.len() ==> earlier(times, #[trigger] a[i], #[trigger] a[j]),
        forall|i: int, j: int|
            0 <= i < j < b.len() ==> earlier(times, #[trigger] b[i], #[trigger] b[j]),
        forall|k: Seq<char>| #[trigger] a.contains(k) <==> b.contains(k),
    ensures
        a == b,
    decreases a.len(),
{
    if a.len() == 0 {
        if b.len() > 0 {
            assert(b.contains(b[0]));
            assert(!a.contains(b[0]));
        }
        assert(a =~= b);
    } else {
        assert(a.contains(a.last()));
        assert(b.contains(a.last()));
        assert(b.contains(b.last()));
        assert(a.contains(b.last()));
        let i = choose|i: int| 0 <= i < b.len() && b[i] == a.last();
        let j = choose|j: int| 0 <= j < a.len() && a[j] == b.last();
        earlier_irreflexive(times, a.last());
        if i < b.len() - 1 {
            assert(earlier(times, b[i], b[b.len() - 1]));
            if j < a.len() - 1 {
                assert(earlier(times, a[j], a[a.len() - 1]));
                earlier_transitive(times, a.last(), b.last(), a.last());
            }
        }
        assert(a.last() == b.last());
        let sa = a.drop_last();
        let sb = b.drop_last();
        assert forall|k: Seq<char>| #[trigger] sa.contains(k) <==> sb.contains(k) by {
            if sa.contains(k) {
                let m = choose|m: int| 0 <= m < sa.len() && sa[m] == k;
                assert(a[m] == k);
                assert(earlier(times, a[m], a[a.len() - 1]));
                assert(a.contains(k));
                assert(b.contains(k));
                let n = choose|n: int| 0 <= n < b.len() && b[n] == k;
                assert(sb[n] == k);
            }
            if sb.contains(k) {
                let m = choose|m: int| 0 <= m < sb.len() && sb[m] == k;
                assert(b[m] == k);
                assert(earlier(times, b[m], b[b.len() - 1]));
                assert(b.contains(k));
                assert(a.contains(k));
                let n = choose|n: int| 0 <= n < a.len() && a[n] == k;
                assert(sa[n] == k);
            }
        }
        agenda_unique(times, sa, sb);
        assert(a =~= sa.push(a.last()));
        assert(b =~= sb.push(b.last()));
    }
}

/// Keys with their times, in listing order.
#[derive(Debug)]
pub(crate) struct Agenda {
    slots: Vec<(u64, String)>,
}

spec fn slot_keys(slots: Seq<(u64, String)>) -> Seq<Seq<char>> {
    Seq::new(slots.len(), |i: int| slots[i].1@)
}

spec fn slot_before(a: (u64, String), at: u64, key: Seq<char>) -> bool {
    a.0 < at || (a.0 == at && text::lt(a.1@, key))
}

impl Agenda {
    /// The keys in listing order.
    pub closed spec fn keys(&self) -> Seq<Seq<char>> {
        slot_keys(self.slots@)
    }

    /// This is the listing of `times`.
    pub closed spec fn lists(&self, times: Map<Seq<char>, u64>) -> bool {
        &&& is_agenda(times, slot_keys(self.slots@))
        &&& forall|i: int|
            0 <= i < self.slots@.len() ==> times[#[trigger] self.slots@[i].1@]
                == self.slots@[i].0
    }

    pub fn new() -> (r: Self)
        ensures
            r.lists(Map::empty()),
            r.keys().len() == 0,
    {
        let r = Agenda { slots: Vec::new() };
        assert(r.keys() =~= seq![]);
        r
    }

    pub fn len(&self) -> (r: usize)
        ensures
            r == self.keys().len(),
    {
        self.slots.len()
    }

    pub fn key(&self, i: usize) -> (r: &str)
        requires
            i < self.keys().len(),
        ensures
            r@ == self.keys()[i as int],
    {
        self.slots[i].1.as_str()
    }

    /// What is listed is *the* listing.
    pub proof fn is_the_agenda(&self, times: Map<Seq<char>, u64>)
        requires
            self.lists(times),
        ensures
            self.keys() == agenda(times),
            is_agenda(times, self.keys()),
    {
        assert(is_agenda(times, self.keys()));
        let other = agenda(times);
        assert(is_agenda(times, other));
        assert forall|k: Seq<char>| #[trigger] self.keys().contains(k) <==> other.contains(k) by {
            assert(times.dom().contains(k) <==> other.contains(k));
        }
        agenda_unique(times, self.keys(), other);
    }

    /// Lists one more key.
    pub fn add(&mut self, at: u64, key: String, Ghost(times): Ghost<Map<Seq<char>, u64>>)
        requires
            old(self).lists(times),
            !times.dom().contains(key@),
        ensures
            final(self).lists(times.insert(key@, at)),
    {
        let ghost before = self.slots@;
        let ghost k = key@;
        let mut i: usize = 0;
        while i < self.slots.len()
            invariant
                i <= self.slots@.len(),
                self.slots@ == before,
                self.lists(times),
                k == key@,
                !times.dom().contains(k),
                forall|j: int| 0 <= j < i ==> slot_before(#[trigger] before[j], at, k),
            ensures
                i <= before.len(),
                self.slots@ == before,
                self.lists(times),
                forall|j: int| 0 <= j < i ==> slot_before(#[trigger] before[j], at, k),
                i < before.len() ==> !slot_before(before[i as int], at, k),
            decreases self.slots@.len() - i,
        {
            let slot = &self.slots[i];
            let smaller = slot.0 < at || (slot.0 == at && text::less(
                slot.1.as_str(),
                key.as_str(),
            ));
            if !smaller {
                break ;
            }
            i += 1;
        }
        self.slots.insert(i, (at, key));
        proof {
            let after = self.slots@;
            let grown = times.insert(k, at);
            let old_keys = slot_keys(before);
            let new_keys = slot_keys(after);
            assert(after =~= before.insert(i as int, (at, key)));
            assert forall|j: int| 0 <= j < before.len() implies #[trigger] before[j].1@ != k
                && times[before[j].1@] == before[j].0 && grown[before[j].1@] == before[j].0 by {
                assert(old_keys[j] == before[j].1@);
                assert(old_keys.contains(before[j].1@));
                assert(times.dom().contains(before[j].1@));
            }
            assert forall|a: int, b: int| 0 <= a < b < new_keys.len() implies earlier(
                grown,
                #[trigger] new_keys[a],
                #[trigger] new_keys[b],
            ) by {
                let pa = if a < i { a } else { a - 1 };
                let pb = if b < i { b } else { b - 1 };
                if a != i && b != i {
                    assert(earlier(times, old_keys[pa], old_keys[pb]));
                } else if b == i {
                    assert(slot_before(before[a], at, k));
                } else {
                    let first = before[i as int];
                    assert(!slot_before(first, at, k));
                    text::lt_total(first.1@, k);
                    assert(grown[first.1@] == first.0);
                    assert(earlier(grown, k, first.1@));
                    if pb > i {
                        assert(earlier(times, old_keys[i as int], old_keys[pb]));
                        assert(grown[before[pb].1@] == before[pb].0);
                        assert(earlier(grown, first.1@, before[pb].1@));
                        earlier_transitive(grown, k, first.1@, before[pb].1@);
                    }
                }
            }
            assert forall|x: Seq<char>|
                grown.dom().contains(x) <==> #[trigger] new_keys.contains(x) by {
                if times.dom().contains(x) {
                    assert(old_keys.contains(x));
                    let j = choose|j: int| 0 <= j < old_keys.len() && old_keys[j] == x;
                    let nj = if j < i { j } else { j + 1 };
                    assert(new_keys[nj] == x);
                }
                if x == k {
                    assert(new_keys[i as int] == x);
                }
                if new_keys.contains(x) {
                    let j = choose|j: int| 0 <= j < new_keys.len() && new_keys[j] == x;
                    if j != i {
                        let oj = if j < i { j } else { j - 1 };
                        assert(old_keys[oj] == x);
                        assert(old_keys.contains(x));
                    }
                }
            }
            assert forall|j: int| 0 <= j < after.len() implies grown[#[trigger] after[j].1@]
                == after[j].0 by {
                if j != i {
                    let oj = if j < i { j } else { j - 1 };
                    assert(after[j] == before[oj]);
                    assert(grown[before[oj].1@] == before[oj].0);
                }
            }
        }
    }
}

} // verus!
