//! A map from text keys to values, kept in key order.
use crate::text;
use vstd::prelude::*;

verus! {

/// Keys in strictly increasing code-point order.
pub open spec fn increasing(keys: Seq<Seq<char>>) -> bool {
    forall|i: int, j: int|
        0 <= i < j < keys.len() ==> text::lt(#[trigger] keys[i], #[trigger] keys[j])
}

/// The keys of a map in increasing order. `key_order_lists` shows that a finite map has them.
pub open spec fn key_order<V>(m: Map<Seq<char>, V>) -> Seq<Seq<char>> {
    choose|keys: Seq<Seq<char>>| lists(m, keys)
}

/// `keys` holds exactly the keys of `m`, in increasing order.
pub open spec fn lists<V>(m: Map<Seq<char>, V>, keys: Seq<Seq<char>>) -> bool {
    &&& increasing(keys)
    &&& forall|k: Seq<char>| m.dom().contains(k) <==> #[trigger] keys.contains(k)
}

proof fn increasing_unique(a: Seq<Seq<char>>, b: Seq<Seq<char>>)
    requires
        increasing(a),
        increasing(b),
        forall|k: Seq<char>| #[trigger] a.contains(k) <==> b.contains(k),
    ensures
        a == b,
    decreases a.len(),
{
    if a.len() == 0 {
        if b.len() > 0 {
            assert(b.contains(b[0]));
            assert(!a.contains(b[0]));
        }
        assert(a =~= b);
    } else {
        assert(a.contains(a.last()));
        assert(b.contains(a.last()));
        assert(b.contains(b.last()));
        assert(a.contains(b.last()));
        let i = choose|i: int| 0 <= i < b.len() && b[i] == a.last();
        let j = choose|j: int| 0 <= j < a.len() && a[j] == b.last();
        text::lt_irreflexive(a.last());
        if i < b.len() - 1 {
            assert(text::lt(a.last(), b.last()));
            if j < a.len() - 1 {
                assert(text::lt(b.last(), a.last()));
                text::lt_transitive(a.last(), b.last(), a.last());
            }
        }
        assert(a.last() == b.last());
        let sa = a.drop_last();
        let sb = b.drop_last();
        assert forall|k: Seq<char>| #[trigger] sa.contains(k) <==> sb.contains(k) by {
            if sa.contains(k) {
                let m = choose|m: int| 0 <= m < sa.len() && sa[m] == k;
                assert(a[m] == k);
                assert(text::lt(a[m], a[a.len() - 1]));
                assert(a.contains(k));
                assert(b.contains(k));
                let n = choose|n: int| 0 <= n < b.len() && b[n] == k;
                assert(sb[n] == k);
            }
            if sb.contains(k) {
                let m = choose|m: int| 0 <= m < sb.len() && sb[m] == k;
                assert(b[m] == k);
                assert(text::lt(b[m], b[b.len() - 1]));
                assert(b.contains(k));
                assert(a.contains(k));
                let n = choose|n: int| 0 <= n < a.len() && a[n] == k;
                assert(sa[n] == k);
            }
        }
        increasing_unique(sa, sb);
        assert(a =~= sa.push(a.last()));
        assert(b =~= sb.push(b.last()));
    }
}

/// The keys of `s` in increasing order, for any finite set of them.
proof fn finite_keys_are_listed(s: Set<Seq<char>>) -> (keys: Seq<Seq<char>>)
    requires
        s.finite(),
    ensures
        increasing(keys),
        forall|k: Seq<char>| s.contains(k) <==> #[trigger] keys.contains(k),
    decreases s.len(),
{
    if s.len() == 0 {
        let keys = Seq::<Seq<char>>::empty();
        assert forall|k: Seq<char>| s.contains(k) <==> #[trigger] keys.contains(k) by {
            assert(s =~= Set::empty());
        }
        keys
    } else {
        let key = s.choose();
        let rest = finite_keys_are_listed(s.remove(key));
        insert_key(rest, key);
        let keys = choose|keys: Seq<Seq<char>>| inserted(rest, key, keys);
        assert forall|k: Seq<char>| s.contains(k) <==> #[trigger] keys.contains(k) by {
            assert(s.remove(key).contains(k) <==> rest.contains(k));
        }
        keys
    }
}

/// `keys` is in increasing order and holds the keys of `rest` and one more.
spec fn inserted(rest: Seq<Seq<char>>, key: Seq<char>, keys: Seq<Seq<char>>) -> bool {
    &&& increasing(keys)
    &&& forall|k: Seq<char>| #[trigger] keys.contains(k) <==> rest.contains(k) || k == key
}

proof fn insert_key(rest: Seq<Seq<char>>, key: Seq<char>)
    requires
        increasing(rest),
        !rest.contains(key),
    ensures
        exists|keys: Seq<Seq<char>>| inserted(rest, key, keys),
    decreases rest.len(),
{
    if rest.len() == 0 {
        let keys = seq![key];
        assert forall|k: Seq<char>| #[trigger] keys.contains(k) <==> rest.contains(k) || k == key by {
            assert(keys[0] == key);
        }
        assert(inserted(rest, key, keys));
    } else {
        let last = rest.last();
        let front = rest.drop_last();
        text::lt_total(key, last);
        assert(rest[rest.len() - 1] == last);
        assert(rest.contains(last));
        if text::lt(last, key) {
            let keys = rest.push(key);
            assert forall|i: int, j: int| 0 <= i < j < keys.len() implies text::lt(
                #[trigger] keys[i],
                #[trigger] keys[j],
            ) by {
                if j == rest.len() && i < rest.len() - 1 {
                    text::lt_transitive(rest[i], last, key);
                }
            }
            pushed_contains(rest, key);
            assert(inserted(rest, key, keys));
        } else {
            assert forall|k: Seq<char>| #[trigger] front.contains(k) implies rest.contains(k) by {
                let i = choose|i: int| 0 <= i < front.len() && front[i] == k;
                assert(rest[i] == k);
            }
            insert_key(front, key);
            let some = choose|keys: Seq<Seq<char>>| inserted(front, key, keys);
            let keys = some.push(last);
            assert forall|i: int, j: int| 0 <= i < j < keys.len() implies text::lt(
                #[trigger] keys[i],
                #[trigger] keys[j],
            ) by {
                if j == some.len() {
                    assert(some.contains(some[i]));
                    if some[i] != key {
                        let m = choose|m: int| 0 <= m < front.len() && front[m] == some[i];
                        assert(rest[m] == some[i]);
                    }
                }
            }
            pushed_contains(some, last);
            pushed_contains(front, last);
            assert(front.push(last) =~= rest);
            assert forall|k: Seq<char>| #[trigger]
                keys.contains(k) <==> rest.contains(k) || k == key by {
                assert(some.contains(k) <==> front.contains(k) || k == key);
                assert(front.push(last).contains(k) <==> front.contains(k) || k == last);
            }
            assert(inserted(rest, key, keys));
        }
    }
}

proof fn pushed_contains(s: Seq<Seq<char>>, key: Seq<char>)
    ensures
        forall|k: Seq<char>| #[trigger] s.push(key).contains(k) <==> s.contains(k) || k == key,
{
    let t = s.push(key);
    assert forall|k: Seq<char>| #[trigger] t.contains(k) <==> s.contains(k) || k == key by {
        if s.contains(k) {
            let i = choose|i: int| 0 <= i < s.len() && s[i] == k;
            assert(t[i] == k);
        }
        if k == key {
            assert(t[s.len() as int] == key);
        }
        if t.contains(k) {
            let i = choose|i: int| 0 <= i < t.len() && t[i] == k;
            if i < s.len() {
                assert(s[i] == k);
            }
        }
    }
}

/// Every finite map has its keys in increasing order.
pub proof fn key_order_lists<V>(m: Map<Seq<char>, V>)
    requires
        m.dom().finite(),
    ensures
        lists(m, key_order(m)),
{
    let keys = finite_keys_are_listed(m.dom());
    assert(lists(m, keys));
}

/// A list of all keys in increasing order is the key order.
pub proof fn key_order_is<V>(m: Map<Seq<char>, V>, keys: Seq<Seq<char>>)
    requires
        lists(m, keys),
    ensures
        key_order(m) == keys,
{
    increasing_unique(keys, key_order(m));
}

spec fn keys_of<V>(entries: Seq<(String, V)>) -> Seq<Seq<char>> {
    Seq::new(entries.len(), |i: int| entries[i].0@)
}

spec fn sorted<V>(entries: Seq<(String, V)>) -> bool {
    forall|i: int, j: int|
        0 <= i < j < entries.len() ==> text::lt(
            #[trigger] entries[i].0@,
            #[trigger] entries[j].0@,
        )
}

spec fn at<V>(entries: Seq<(String, V)>, key: Seq<char>, i: int) -> bool {
    0 <= i < entries.len() && entries[i].0@ == key
}

spec fn holds<V>(entries: Seq<(String, V)>, key: Seq<char>) -> bool {
    exists|i: int| at(entries, key, i)
}

spec fn contents<V>(entries: Seq<(String, V)>) -> Map<Seq<char>, V> {
    Map::new(
        |key: Seq<char>| holds(entries, key),
        |key: Seq<char>| entries[choose|i: int| at(entries, key, i)].1,
    )
}

proof fn contents_at<V>(entries: Seq<(String, V)>, i: int)
    requires
        sorted(entries),
        0 <= i < entries.len(),
    ensures
        contents(entries).dom().contains(entries[i].0@),
        contents(entries)[entries[i].0@] == entries[i].1,
{
    let key = entries[i].0@;
    assert(at(entries, key, i));
    let j = choose|j: int| at(entries, key, j);
    assert(at(entries, key, j));
    text::lt_irreflexive(key);
    assert(i == j);
}

proof fn absent_between<V>(entries: Seq<(String, V)>, key: Seq<char>, i: int)
    requires
        sorted(entries),
        0 <= i <= entries.len(),
        i > 0 ==> text::lt(entries[i - 1].0@, key),
        i < entries.len() ==> text::lt(key, entries[i].0@),
    ensures
        !holds(entries, key),
        forall|k: int| 0 <= k < i ==> text::lt(#[trigger] entries[k].0@, key),
        forall|k: int| i <= k < entries.len() ==> text::lt(key, #[trigger] entries[k].0@),
{
    assert forall|k: int| 0 <= k < i implies text::lt(#[trigger] entries[k].0@, key) by {
        if k < i - 1 {
            text::lt_transitive(entries[k].0@, entries[i - 1].0@, key);
        }
    }
    assert forall|k: int| i <= k < entries.len() implies text::lt(
        key,
        #[trigger] entries[k].0@,
    ) by {
        if i < k {
            text::lt_transitive(key, entries[i].0@, entries[k].0@);
        }
    }
    text::lt_irreflexive(key);
}

/// The contents of a map with every value taken by its view.
pub open spec fn values<V: View>(m: Map<Seq<char>, V>) -> Map<Seq<char>, V::V> {
    Map::new(|k: Seq<char>| m.dom().contains(k), |k: Seq<char>| m[k]@)
}

pub proof fn values_insert<V: View>(m: Map<Seq<char>, V>, key: Seq<char>, value: V)
    ensures
        values(m.insert(key, value)) == values(m).insert(key, value@),
{
    assert(values(m.insert(key, value)) =~= values(m).insert(key, value@));
}

/// The members of `s` that `keep` accepts, in order.
pub open spec fn kept<A>(s: Seq<A>, keep: spec_fn(A) -> bool) -> Seq<A>
    decreases s.len(),
{
    if s.len() == 0 {
        s
    } else if keep(s.last()) {
        kept(s.drop_last(), keep).push(s.last())
    } else {
        kept(s.drop_last(), keep)
    }
}

/// What is kept is what was there and is accepted.
pub proof fn kept_members<A>(s: Seq<A>, keep: spec_fn(A) -> bool, x: A)
    ensures
        kept(s, keep).contains(x) <==> s.contains(x) && keep(x),
    decreases s.len(),
{
    if s.len() > 0 {
        kept_members(s.drop_last(), keep, x);
        let rest = kept(s.drop_last(), keep);
        assert(s =~= s.drop_last().push(s.last()));
        if s.contains(x) {
            let i = choose|i: int| 0 <= i < s.len() && s[i] == x;
            if i < s.len() - 1 {
                assert(s.drop_last()[i] == x);
            }
        }
        if s.drop_last().contains(x) {
            let i = choose|i: int| 0 <= i < s.drop_last().len() && s.drop_last()[i] == x;
            assert(s[i] == x);
        }
        if keep(s.last()) {
            let all = rest.push(s.last());
            assert(all[rest.len() as int] == s.last());
            if rest.contains(x) {
                let i = choose|i: int| 0 <= i < rest.len() && rest[i] == x;
                assert(all[i] == x);
            }
            if all.contains(x) {
                let i = choose|i: int| 0 <= i < all.len() && all[i] == x;
                if i < rest.len() {
                    assert(rest[i] == x);
                } else {
                    assert(s[s.len() - 1] == x);
                }
            }
        }
        if x == s.last() {
            assert(s[s.len() - 1] == x);
        }
    }
}

pub proof fn kept_is_shorter<A>(s: Seq<A>, keep: spec_fn(A) -> bool)
    ensures
        kept(s, keep).len() <= s.len(),
    decreases s.len(),
{
    if s.len() > 0 {
        kept_is_shorter(s.drop_last(), keep);
    }
}

/// What is kept of a start is a start of what is kept.
pub proof fn kept_starts<A>(s: Seq<A>, keep: spec_fn(A) -> bool, n: int)
    requires
        0 <= n <= s.len(),
    ensures
        kept(s.take(n), keep).len() <= kept(s, keep).len(),
        kept(s.take(n), keep) == kept(s, keep).take(kept(s.take(n), keep).len() as int),
    decreases s.len(),
{
    let start = kept(s.take(n), keep);
    if n == s.len() {
        assert(s.take(n) =~= s);
        assert(start =~= start.take(start.len() as int));
    } else {
        kept_starts(s.drop_last(), keep, n);
        assert(s.drop_last().take(n) =~= s.take(n));
        assert(start =~= kept(s, keep).take(start.len() as int));
    }
}

/// The place of the first member that `wanted` accepts.
pub open spec fn first<A>(s: Seq<A>, wanted: spec_fn(A) -> bool) -> Option<int>
    decreases s.len(),
{
    if s.len() == 0 {
        None
    } else {
        match first(s.drop_last(), wanted) {
            Some(i) => Some(i),
            None => if wanted(s.last()) {
                Some(s.len() - 1)
            } else {
                None
            },
        }
    }
}

/// The first accepted member is accepted and none before it is; without one, none is.
pub proof fn first_found<A>(s: Seq<A>, wanted: spec_fn(A) -> bool)
    ensures
        match first(s, wanted) {
            Some(i) => 0 <= i < s.len() && wanted(s[i]) && forall|j: int|
                0 <= j < i ==> !wanted(#[trigger] s[j]),
            None => forall|j: int| 0 <= j < s.len() ==> !wanted(#[trigger] s[j]),
        },
    decreases s.len(),
{
    if s.len() > 0 {
        let rest = s.drop_last();
        first_found(rest, wanted);
        assert forall|j: int| 0 <= j < rest.len() implies rest[j] == #[trigger] s[j] by {}
    }
}

/// A member that is accepted while none before it is comes first.
pub proof fn first_is<A>(s: Seq<A>, wanted: spec_fn(A) -> bool, i: int)
    requires
        0 <= i < s.len(),
        wanted(s[i]),
        forall|j: int| 0 <= j < i ==> !wanted(#[trigger] s[j]),
    ensures
        first(s, wanted) == Some(i),
{
    first_found(s, wanted);
}

/// Where nothing is accepted there is no first.
pub proof fn first_is_none<A>(s: Seq<A>, wanted: spec_fn(A) -> bool)
    requires
        forall|j: int| 0 <= j < s.len() ==> !wanted(#[trigger] s[j]),
    ensures
        first(s, wanted) is None,
{
    first_found(s, wanted);
}

/// A map with text keys whose entries are walked in key order.
#[derive(Debug)]
pub struct TextMap<V> {
    entries: Vec<(String, V)>,
}

impl<V> View for TextMap<V> {
    type V = Map<Seq<char>, V>;

    closed spec fn view(&self) -> Map<Seq<char>, V> {
        contents(self.entries@)
    }
}

impl<V> TextMap<V> {
    #[verifier::type_invariant]
    spec fn ordered(self) -> bool {
        sorted(self.entries@)
    }

    /// The keys in the order in which they are walked.
    pub closed spec fn keys(&self) -> Seq<Seq<char>> {
        keys_of(self.entries@)
    }

    pub fn new() -> (r: Self)
        ensures
            r@ == Map::<Seq<char>, V>::empty(),
    {
        let r = TextMap { entries: Vec::new() };
        assert(r@ =~= Map::<Seq<char>, V>::empty());
        r
    }

    fn locate(&self, key: &str) -> (r: (bool, usize))
        ensures
            r.1 <= self.entries@.len(),
            r.0 ==> r.1 < self.entries@.len() && self.entries@[r.1 as int].0@ == key@,
            !r.0 ==> !holds(self.entries@, key@),
            !r.0 ==> forall|k: int|
                0 <= k < r.1 ==> text::lt(#[trigger] self.entries@[k].0@, key@),
            !r.0 ==> forall|k: int|
                r.1 <= k < self.entries@.len() ==> text::lt(key@, #[trigger] self.entries@[k].0@),
    {
        proof {
            use_type_invariant(self);
        }
        let mut i: usize = 0;
        while i < self.entries.len()
            invariant
                i <= self.entries@.len(),
                sorted(self.entries@),
                i > 0 ==> text::lt(self.entries@[i - 1].0@, key@),
            decreases self.entries@.len() - i,
        {
            if text::less(self.entries[i].0.as_str(), key) {
                i += 1;
            } else if text::same(self.entries[i].0.as_str(), key) {
                return (true, i);
            } else {
                proof {
                    text::lt_total(self.entries@[i as int].0@, key@);
                    absent_between(self.entries@, key@, i as int);
                }
                return (false, i);
            }
        }
        proof {
            absent_between(self.entries@, key@, i as int);
        }
        (false, i)
    }

    /// The value under `key`.
    pub fn get(&self, key: &str) -> (r: Option<&V>)
        ensures
            r is Some <==> self@.dom().contains(key@),
            r matches Some(v) ==> *v == self@[key@],
    {
        proof {
            use_type_invariant(self);
        }
        let (found, i) = self.locate(key);
        if found {
            proof {
                contents_at(self.entries@, i as int);
            }
            Some(&self.entries[i].1)
        } else {
            None
        }
    }

    pub fn contains(&self, key: &str) -> (r: bool)
        ensures
            r == self@.dom().contains(key@),
    {
        self.get(key).is_some()
    }

    /// Stores `value` under `key` and hands back what stood there.
    pub fn insert(&mut self, key: String, value: V) -> (r: Option<V>)
        ensures
            final(self)@ == old(self)@.insert(key@, value),
            r is Some <==> old(self)@.dom().contains(key@),
            r matches Some(v) ==> v == old(self)@[key@],
    {
        proof {
            use_type_invariant(&*self);
        }
        let (found, i) = self.locate(key.as_str());
        let ghost before = self.entries@;
        let ghost k = key@;
        let mut entries: Vec<(String, V)> = Vec::new();
        std::mem::swap(&mut entries, &mut self.entries);
        let r = if found {
            proof {
                contents_at(before, i as int);
            }
            let (_, replaced) = entries.remove(i);
            entries.insert(i, (key, value));
            assert(entries@ =~= before.update(i as int, (key, value)));
            Some(replaced)
        } else {
            entries.insert(i, (key, value));
            assert(entries@ =~= before.insert(i as int, (key, value)));
            None
        };
        proof {
            assert(sorted(entries@)) by {
                assert forall|a: int, b: int| 0 <= a < b < entries@.len() implies text::lt(
                    #[trigger] entries@[a].0@,
                    #[trigger] entries@[b].0@,
                ) by {
                    if !found {
                        let pa = if a < i { a } else { a - 1 };
                        let pb = if b < i { b } else { b - 1 };
                        if a != i && b != i {
                            assert(text::lt(before[pa].0@, before[pb].0@));
                        } else if a == i {
                            assert(text::lt(k, before[pb].0@));
                        } else {
                            assert(text::lt(before[pa].0@, k));
                        }
                    } else {
                        assert(text::lt(before[a].0@, before[b].0@));
                    }
                }
            }
            assert(contents(entries@) =~= contents(before).insert(k, value)) by {
                contents_at(entries@, i as int);
                assert forall|x: Seq<char>| holds(entries@, x) <==> (x == k || holds(before, x)) by {
                    if holds(before, x) {
                        let j = choose|j: int| at(before, x, j);
                        assert(at(before, x, j));
                        let nj = if found || j < i { j } else { j + 1 };
                        assert(entries@[nj].0@ == x);
                        assert(at(entries@, x, nj));
                    }
                    if holds(entries@, x) && x != k {
                        let j = choose|j: int| at(entries@, x, j);
                        assert(at(entries@, x, j));
                        let oj = if found || j < i { j } else { j - 1 };
                        assert(at(before, x, oj));
                    }
                }
                assert forall|x: Seq<char>| x != k && holds(before, x) implies contents(entries@)[x]
                    == contents(before)[x] by {
                    let j = choose|j: int| at(before, x, j);
                    assert(at(before, x, j));
                    contents_at(before, j);
                    let nj = if found || j < i { j } else { j + 1 };
                    assert(entries@[nj] == before[j]);
                    contents_at(entries@, nj);
                }
            }
        }
        self.entries = entries;
        r
    }

    /// Takes out what stands under `key`.
    pub fn remove(&mut self, key: &str) -> (r: Option<V>)
        ensures
            final(self)@ == old(self)@.remove(key@),
            r is Some <==> old(self)@.dom().contains(key@),
            r matches Some(v) ==> v == old(self)@[key@],
    {
        proof {
            use_type_invariant(&*self);
        }
        let (found, i) = self.locate(key);
        let ghost before = self.entries@;
        if !found {
            assert(old(self)@.remove(key@) =~= old(self)@);
            return None;
        }
        let mut entries: Vec<(String, V)> = Vec::new();
        std::mem::swap(&mut entries, &mut self.entries);
        let (_, removed) = entries.remove(i);
        proof {
            contents_at(before, i as int);
            assert(entries@ =~= before.remove(i as int));
            assert(sorted(entries@)) by {
                assert forall|a: int, b: int| 0 <= a < b < entries@.len() implies text::lt(
                    #[trigger] entries@[a].0@,
                    #[trigger] entries@[b].0@,
                ) by {
                    let pa = if a < i { a } else { a + 1 };
                    let pb = if b < i { b } else { b + 1 };
                    assert(text::lt(before[pa].0@, before[pb].0@));
                }
            }
            assert(contents(entries@) =~= contents(before).remove(key@)) by {
                assert forall|x: Seq<char>|
                    holds(entries@, x) <==> (x != key@ && holds(before, x)) by {
                    text::lt_irreflexive(x);
                    if holds(before, x) && x != key@ {
                        let j = choose|j: int| at(before, x, j);
                        assert(at(before, x, j));
                        let nj = if j < i { j } else { j - 1 };
                        assert(at(entries@, x, nj));
                    }
                    if holds(entries@, x) {
                        let j = choose|j: int| at(entries@, x, j);
                        assert(at(entries@, x, j));
                        let oj = if j < i { j } else { j + 1 };
                        assert(at(before, x, oj));
                        if x == key@ {
                            assert(at(before, x, i as int));
                            let lo = if oj < i { oj } else { i as int };
                            let hi = if oj < i { i as int } else { oj };
                            assert(text::lt(before[lo].0@, before[hi].0@));
                        }
                    }
                }
                assert forall|x: Seq<char>| holds(entries@, x) implies contents(entries@)[x]
                    == contents(before)[x] by {
                    let j = choose|j: int| at(entries@, x, j);
                    assert(at(entries@, x, j));
                    contents_at(entries@, j);
                    let oj = if j < i { j } else { j + 1 };
                    contents_at(before, oj);
                }
            }
        }
        self.entries = entries;
        Some(removed)
    }

    /// The number of entries; the walk visits every key once, in increasing order.
    pub fn len(&self) -> (r: usize)
        ensures
            r == self.keys().len(),
            lists(self@, self.keys()),
            self.keys() == key_order(self@),
    {
        proof {
            use_type_invariant(self);
            let s = self.entries@;
            assert forall|i: int, j: int| 0 <= i < j < self.keys().len() implies text::lt(
                #[trigger] self.keys()[i],
                #[trigger] self.keys()[j],
            ) by {
                assert(text::lt(s[i].0@, s[j].0@));
            }
            assert forall|k: Seq<char>| self@.dom().contains(k) <==> #[trigger] self.keys().contains(k) by {
                if holds(s, k) {
                    let i = choose|i: int| at(s, k, i);
                    assert(at(s, k, i));
                    assert(self.keys()[i] == k);
                }
                if self.keys().contains(k) {
                    let i = choose|i: int| 0 <= i < self.keys().len() && self.keys()[i] == k;
                    assert(at(s, k, i));
                }
            }
            assert(lists(self@, self.keys()));
            increasing_unique(self.keys(), key_order(self@));
        }
        self.entries.len()
    }

    pub fn is_empty(&self) -> (r: bool)
        ensures
            r == (self@.dom() =~= Set::empty()),
    {
        let n = self.len();
        proof {
            if n == 0 {
                assert forall|k: Seq<char>| !self@.dom().contains(k) by {
                    assert(!self.keys().contains(k));
                }
            } else {
                assert(self.keys().contains(self.keys()[0]));
            }
        }
        n == 0
    }

    /// The key at position `i` of the walk.
    pub fn key_at(&self, i: usize) -> (r: &str)
        requires
            i < self.keys().len(),
        ensures
            r@ == self.keys()[i as int],
            self@.dom().contains(r@),
    {
        proof {
            use_type_invariant(self);
            contents_at(self.entries@, i as int);
        }
        self.entries[i].0.as_str()
    }

    /// The value at position `i` of the walk.
    pub fn value_at(&self, i: usize) -> (r: &V)
        requires
            i < self.keys().len(),
        ensures
            self@.dom().contains(self.keys()[i as int]),
            *r == self@[self.keys()[i as int]],
    {
        proof {
            use_type_invariant(self);
            contents_at(self.entries@, i as int);
        }
        &self.entries[i].1
    }

    /// The keys in increasing order.
    pub fn sorted_keys(&self) -> (r: Vec<String>)
        ensures
            text::views(r@) == key_order(self@),
    {
        let mut out: Vec<String> = Vec::new();
        let n = self.len();
        let mut i: usize = 0;
        while i < n
            invariant
                i <= n == self.keys().len(),
                text::views(out@) == self.keys().take(i as int),
            decreases n - i,
        {
            let ghost before = out@;
            let key = self.key_at(i).to_owned();
            out.push(key);
            assert(text::views(out@) =~= text::views(before).push(key@));
            assert(self.keys().take(i + 1) =~= self.keys().take(i as int).push(key@));
            i += 1;
        }
        assert(self.keys().take(n as int) =~= self.keys());
        out
    }
}

} // verus!
