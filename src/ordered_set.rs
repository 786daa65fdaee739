use crate::constituent::Constituent;
use vstd::prelude::*;

verus! {

/// `s` with `c` appended, unless `s` already holds it.
pub open spec fn insert_absent(s: Seq<Constituent>, c: Constituent) -> Seq<Constituent> {
    if s.contains(c) {
        s
    } else {
        s.push(c)
    }
}

/// `acc` after inserting each item of `xs` in turn with `insert_absent`.
pub open spec fn insert_all(acc: Seq<Constituent>, xs: Seq<Constituent>) -> Seq<Constituent>
    decreases xs.len(),
{
    if xs.len() == 0 {
        acc
    } else {
        insert_absent(insert_all(acc, xs.drop_last()), xs.last())
    }
}

/// Inserting never creates a duplicate.
pub proof fn lemma_insert_all_no_duplicates(acc: Seq<Constituent>, xs: Seq<Constituent>)
    requires
        acc.no_duplicates(),
    ensures
        insert_all(acc, xs).no_duplicates(),
    decreases xs.len(),
{
    if xs.len() > 0 {
        lemma_insert_all_no_duplicates(acc, xs.drop_last());
    }
}

/// Every item that was inserted, or was there before, is held afterwards,
/// and nothing else.
pub proof fn lemma_insert_all_contains(acc: Seq<Constituent>, xs: Seq<Constituent>, c: Constituent)
    ensures
        insert_all(acc, xs).contains(c) <==> (acc.contains(c) || xs.contains(c)),
    decreases xs.len(),
{
    if xs.len() > 0 {
        lemma_insert_all_contains(acc, xs.drop_last(), c);
        let p = insert_all(acc, xs.drop_last());
        if xs.contains(c) && !xs.drop_last().contains(c) {
            let k = choose|k: int| 0 <= k < xs.len() && xs[k] == c;
            if k < xs.len() - 1 {
                assert(xs.drop_last()[k] == c);
            }
            assert(xs.last() == c);
            if !p.contains(c) {
                assert(p.push(c)[p.len() as int] == c);
            }
        }
        if xs.drop_last().contains(c) {
            let k = choose|k: int| 0 <= k < xs.drop_last().len() && xs.drop_last()[k] == c;
            assert(xs[k] == c);
        }
        if p.push(xs.last()).contains(c) && !p.contains(c) {
            let k = choose|k: int| 0 <= k < p.len() + 1 && p.push(xs.last())[k] == c;
            assert(xs[xs.len() - 1] == c);
        }
        if p.contains(c) && !p.contains(xs.last()) {
            let k = choose|k: int| 0 <= k < p.len() && p[k] == c;
            assert(p.push(xs.last())[k] == c);
        }
    }
}

/// What was held before inserting keeps its place at the front.
pub proof fn lemma_insert_all_prefix(acc: Seq<Constituent>, xs: Seq<Constituent>)
    ensures
        insert_all(acc, xs).len() >= acc.len(),
        insert_all(acc, xs).take(acc.len() as int) == acc,
    decreases xs.len(),
{
    if xs.len() > 0 {
        lemma_insert_all_prefix(acc, xs.drop_last());
        let p = insert_all(acc, xs.drop_last());
        assert(p.push(xs.last()).take(acc.len() as int) =~= p.take(acc.len() as int));
    }
}

/// A set of constituents that remembers the order in which they were first
/// inserted.
pub struct ConstituentSet {
    items: Vec<Constituent>,
}

impl View for ConstituentSet {
    type V = Seq<Constituent>;

    closed spec fn view(&self) -> Seq<Constituent> {
        self.items@
    }
}

impl ConstituentSet {
    /// The empty set.
    pub fn new() -> (r: ConstituentSet)
        ensures
            r@ == Seq::<Constituent>::empty(),
    {
        ConstituentSet { items: Vec::new() }
    }

    /// The number of constituents held.
    pub fn len(&self) -> (r: usize)
        ensures
            r == self@.len(),
    {
        self.items.len()
    }

    /// The constituent inserted `i`-th.
    pub fn get(&self, i: usize) -> (r: Constituent)
        requires
            i < self@.len(),
        ensures
            r == self@[i as int],
    {
        self.items[i]
    }

    /// Whether `c` is held.
    pub fn contains(&self, c: Constituent) -> (r: bool)
        ensures
            r == self@.contains(c),
    {
        let mut i: usize = 0;
        while i < self.items.len()
            invariant
                i <= self.items@.len(),
                forall|j: int| 0 <= j < i ==> self.items@[j] != c,
            decreases self.items.len() - i,
        {
            if self.items[i] == c {
                return true;
            }
            i = i + 1;
        }
        false
    }

    /// Appends `c` unless it is already held; returns whether it was added.
    pub fn insert_if_absent(&mut self, c: Constituent) -> (r: bool)
        ensures
            final(self)@ == insert_absent(old(self)@, c),
            r == !old(self)@.contains(c),
    {
        if self.contains(c) {
            false
        } else {
            self.items.push(c);
            true
        }
    }

    /// Inserts each constituent of `other`, in its order.
    pub fn extend(&mut self, other: &ConstituentSet)
        ensures
            final(self)@ == insert_all(old(self)@, other@),
    {
        let mut i: usize = 0;
        let n = other.len();
        while i < n
            invariant
                n == other@.len(),
                i <= n,
                self@ == insert_all(old(self)@, other@.take(i as int)),
            decreases n - i,
        {
            let c = other.get(i);
            self.insert_if_absent(c);
            assert(other@.take(i as int + 1).drop_last() =~= other@.take(i as int));
            i = i + 1;
        }
        assert(other@.take(n as int) =~= other@);
    }

    /// The constituents held, in insertion order.
    pub fn to_vec(&self) -> (r: Vec<Constituent>)
        ensures
            r@ == self@,
    {
        self.items.clone()
    }
}

} // verus!
