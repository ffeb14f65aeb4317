//! The identifiers that a stage has already emitted, and the rule by which
//! a stage emits each identifier once, in the order of discovery.

use vstd::prelude::*;
use vstd::hash_set::StringHashSet;
use crate::text::views;

verus! {

/// The identifiers of `found` that a stage emits when it has already
/// emitted those of `seen`: each one that is neither in `seen` nor earlier
/// in `found`, in the order of `found`.
pub open spec fn fresh(seen: Set<Seq<char>>, found: Seq<Seq<char>>) -> Seq<Seq<char>>
    decreases found.len(),
{
    if found.len() == 0 {
        Seq::empty()
    } else {
        let before = fresh(seen, found.drop_last());
        if seen.contains(found.last()) || before.contains(found.last()) {
            before
        } else {
            before.push(found.last())
        }
    }
}

/// Index of the first occurrence of `x` in `s`, or `s.len()` if there is none.
pub open spec fn first_occurrence(s: Seq<Seq<char>>, x: Seq<char>) -> int
    decreases s.len(),
{
    if s.len() == 0 {
        0
    } else if s.drop_last().contains(x) {
        first_occurrence(s.drop_last(), x)
    } else if s.last() == x {
        s.len() - 1
    } else {
        s.len() as int
    }
}

/// `first_occurrence` is the least index at which `x` stands.
pub proof fn lemma_first_occurrence(s: Seq<Seq<char>>, x: Seq<char>)
    ensures
        0 <= first_occurrence(s, x) <= s.len(),
        s.contains(x) <==> first_occurrence(s, x) < s.len(),
        first_occurrence(s, x) < s.len() ==> s[first_occurrence(s, x)] == x,
        forall|j: int| 0 <= j < first_occurrence(s, x) ==> s[j] != x,
    decreases s.len(),
{
    if s.len() > 0 {
        let init = s.drop_last();
        lemma_first_occurrence(init, x);
        assert forall|j: int| 0 <= j < s.len() - 1 implies init[j] == s[j] by {}
        if init.contains(x) {
            let k = first_occurrence(init, x);
            assert(s[k] == x);
        } else if s.last() == x {
            assert(s[s.len() - 1] == x);
            assert forall|j: int| 0 <= j < s.len() - 1 implies s[j] != x by {
                assert(init[j] == s[j]);
            }
        } else {
            assert forall|j: int| 0 <= j < s.len() implies s[j] != x by {
                if j < s.len() - 1 {
                    assert(init[j] == s[j]);
                }
            }
        }
    }
}

/// Whatever is found, each identifier is emitted exactly once if it was
/// found and had not been emitted before, and not at all otherwise: nothing
/// is emitted twice, and nothing that had been emitted before is emitted
/// again.
pub proof fn law_emitted_once(seen: Set<Seq<char>>, found: Seq<Seq<char>>)
    ensures
        fresh(seen, found).no_duplicates(),
        forall|x: Seq<char>| #[trigger]
            fresh(seen, found).contains(x) <==> (found.contains(x) && !seen.contains(x)),
    decreases found.len(),
{
    let out = fresh(seen, found);
    if found.len() > 0 {
        let init = found.drop_last();
        let before = fresh(seen, init);
        let last = found.last();
        law_emitted_once(seen, init);
        assert forall|x: Seq<char>| #[trigger]
            out.contains(x) <==> (found.contains(x) && !seen.contains(x)) by {
            if found.contains(x) {
                let i = choose|i: int| 0 <= i < found.len() && found[i] == x;
                if i < found.len() - 1 {
                    assert(init[i] == x);
                }
            }
            if init.contains(x) {
                let i = choose|i: int| 0 <= i < init.len() && init[i] == x;
                assert(found[i] == x);
            }
            assert(found[found.len() - 1] == last);
            if seen.contains(last) || before.contains(last) {
            } else {
                assert(out[out.len() - 1] == last);
                if before.contains(x) {
                    let i = choose|i: int| 0 <= i < before.len() && before[i] == x;
                    assert(out[i] == x);
                }
            }
        }
    }
}

/// What is emitted comes out in the order of discovery: of two emitted
/// identifiers, the one emitted first was also found first.
pub proof fn law_discovery_order(seen: Set<Seq<char>>, found: Seq<Seq<char>>, i: int, j: int)
    requires
        0 <= i < j < fresh(seen, found).len(),
    ensures
        first_occurrence(found, fresh(seen, found)[i]) < first_occurrence(
            found,
            fresh(seen, found)[j],
        ) < found.len(),
    decreases found.len(),
{
    let out = fresh(seen, found);
    if found.len() > 0 {
        let init = found.drop_last();
        let before = fresh(seen, init);
        let last = found.last();
        law_emitted_once(seen, init);
        lemma_first_occurrence(init, out[i]);
        lemma_first_occurrence(init, out[j]);
        if j < before.len() {
            law_discovery_order(seen, init, i, j);
            assert(before.contains(before[i]));
            assert(before.contains(before[j]));
        } else {
            assert(out[j] == last);
            assert(before.contains(before[i]));
            assert(!init.contains(last));
        }
    }
}

/// The identifiers of `s`, as a set.
pub open spec fn members(s: Seq<Seq<char>>) -> Set<Seq<char>> {
    Set::new(|x: Seq<char>| s.contains(x))
}

/// Emitting what is found in two parts, one after the other, is emitting
/// what is found in both.
pub proof fn lemma_fresh_concat(seen: Set<Seq<char>>, a: Seq<Seq<char>>, b: Seq<Seq<char>>)
    ensures
        fresh(seen, a + b) == fresh(seen, a) + fresh(seen.union(members(fresh(seen, a))), b),
    decreases b.len(),
{
    let first = fresh(seen, a);
    let mid = seen.union(members(first));
    if b.len() == 0 {
        assert(a + b =~= a);
        assert(first + fresh(mid, b) =~= first);
    } else {
        let init = b.drop_last();
        let last = b.last();
        lemma_fresh_concat(seen, a, init);
        assert((a + b).drop_last() =~= a + init);
        assert((a + b).last() == last);
        let left = fresh(seen, a + init);
        let right = fresh(mid, init);
        assert(left == first + right);
        assert(left.contains(last) <==> (first.contains(last) || right.contains(last))) by {
            if left.contains(last) {
                let i = choose|i: int| 0 <= i < left.len() && left[i] == last;
                if i < first.len() {
                    assert(first[i] == last);
                } else {
                    assert(right[i - first.len()] == last);
                }
            }
            if first.contains(last) {
                let i = choose|i: int| 0 <= i < first.len() && first[i] == last;
                assert(left[i] == last);
            }
            if right.contains(last) {
                let i = choose|i: int| 0 <= i < right.len() && right[i] == last;
                assert(left[first.len() + i] == last);
            }
        }
        assert(mid.contains(last) <==> (seen.contains(last) || first.contains(last)));
        if seen.contains(last) || left.contains(last) {
            assert(fresh(seen, a + b) == left);
            assert(fresh(mid, b) == right);
        } else {
            assert(fresh(seen, a + b) == left.push(last));
            assert(fresh(mid, b) == right.push(last));
            assert(left.push(last) =~= first + right.push(last));
        }
    }
}

/// The identifiers that a stage has emitted so far.
pub struct SeenSet {
    items: StringHashSet,
}

impl View for SeenSet {
    type V = Set<Seq<char>>;

    closed spec fn view(&self) -> Set<Seq<char>> {
        self.items@
    }
}

impl SeenSet {
    /// A set that holds nothing.
    pub fn new() -> (s: SeenSet)
        ensures
            s@ == Set::<Seq<char>>::empty(),
    {
        SeenSet { items: StringHashSet::new() }
    }

    /// The number of identifiers in the set.
    pub fn len(&self) -> (n: usize)
        ensures
            n == self@.len(),
    {
        self.items.len()
    }

    /// Tells whether `id` is in the set.
    pub fn contains(&self, id: &str) -> (b: bool)
        ensures
            b == self@.contains(id@),
    {
        self.items.contains(id)
    }

    /// Puts `id` into the set unless it is there already, and tells whether
    /// it was put in.
    pub fn insert(&mut self, id: &str) -> (added: bool)
        ensures
            added == !old(self)@.contains(id@),
            final(self)@ == old(self)@.insert(id@),
    {
        self.items.insert(id.to_owned())
    }
}

/// Emits what is new among `found`: returns, in order, each identifier of
/// `found` that was not in `seen` and stands nowhere earlier in `found`,
/// and adds them to `seen`.
pub fn emit_fresh(found: &Vec<String>, seen: &mut SeenSet) -> (out: Vec<String>)
    ensures
        views(out@) == fresh(old(seen)@, views(found@)),
        final(seen)@ == old(seen)@.union(members(views(out@))),
{
    let ghost seen0 = seen@;
    let ghost all = views(found@);
    let mut out: Vec<String> = Vec::new();
    let mut i: usize = 0;
    assert(all.take(0) =~= Seq::<Seq<char>>::empty());
    assert(seen@ =~= seen0.union(members(views(out@))));
    while i < found.len()
        invariant
            i <= found.len(),
            all == views(found@),
            views(out@) == fresh(seen0, all.take(i as int)),
            seen@ == seen0.union(members(views(out@))),
        decreases found.len() - i,
    {
        let ghost before = views(out@);
        proof {
            let next = all.take(i + 1);
            assert(next.drop_last() =~= all.take(i as int));
            assert(next.last() == found@[i as int]@);
        }
        if seen.insert(found[i].as_str()) {
            out.push(found[i].clone());
            assert(views(out@) =~= before.push(found@[i as int]@));
            assert(seen@ =~= seen0.union(members(views(out@)))) by {
                let now = views(out@);
                assert forall|x: Seq<char>| now.contains(x) <==> (before.contains(x) || x
                    == found@[i as int]@) by {
                    if now.contains(x) {
                        let k = choose|k: int| 0 <= k < now.len() && now[k] == x;
                        if k < before.len() {
                            assert(before[k] == x);
                        }
                    }
                    if before.contains(x) {
                        let k = choose|k: int| 0 <= k < before.len() && before[k] == x;
                        assert(now[k] == x);
                    }
                    assert(now[now.len() - 1] == found@[i as int]@);
                }
            }
        } else {
            assert(seen@ =~= seen0.union(members(views(out@))));
        }
        i += 1;
    }
    assert(all.take(found.len() as int) =~= all);
    out
}

} // verus!
