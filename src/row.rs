use vstd::prelude::*;

use crate::value::SqlValue;

verus! {

/// One result row: column names mapped to cell values. No two entries share
/// a name; the order of the entries carries no meaning.
#[derive(Clone, Debug, PartialEq)]
pub struct RowMap {
    pub entries: Vec<(String, SqlValue)>,
}

/// Whether no two entries of `e` have the same name.
pub open spec fn unique_keys(e: Seq<(Seq<char>, SqlValue)>) -> bool {
    forall|i: int, j: int| 0 <= i < j < e.len() ==> #[trigger] e[i].0 != #[trigger] e[j].0
}

/// Whether some entry of `e` is named `k`.
pub open spec fn has_key(e: Seq<(Seq<char>, SqlValue)>, k: Seq<char>) -> bool {
    exists|j: int| 0 <= j < e.len() && #[trigger] e[j].0 == k
}

/// `e` with `k` mapped to `v`: the entry named `k` takes the new value where
/// there is one, else the pair is added at the end.
pub open spec fn upsert(e: Seq<(Seq<char>, SqlValue)>, k: Seq<char>, v: SqlValue) -> Seq<
    (Seq<char>, SqlValue),
> {
    if has_key(e, k) {
        let j = choose|j: int| 0 <= j < e.len() && #[trigger] e[j].0 == k;
        e.update(j, (k, v))
    } else {
        e.push((k, v))
    }
}

/// The mapping that inserting the pairs of `p` in order into an empty one
/// gives: where two pairs share a name, the later one wins.
pub open spec fn inserted_all(p: Seq<(Seq<char>, SqlValue)>) -> Seq<(Seq<char>, SqlValue)>
    decreases p.len(),
{
    if p.len() == 0 {
        Seq::empty()
    } else {
        upsert(inserted_all(p.drop_last()), p.last().0, p.last().1)
    }
}

impl View for RowMap {
    type V = Seq<(Seq<char>, SqlValue)>;

    open spec fn view(&self) -> Seq<(Seq<char>, SqlValue)> {
        self.entries@.map_values(|e: (String, SqlValue)| (e.0@, e.1))
    }
}

impl RowMap {
    /// An empty row.
    pub fn new() -> (r: RowMap)
        ensures
            r@ == Seq::<(Seq<char>, SqlValue)>::empty(),
    {
        let r = RowMap { entries: Vec::new() };
        assert(r@ =~= Seq::<(Seq<char>, SqlValue)>::empty());
        r
    }

    /// Maps `key` to `value`, replacing the value of an entry of that name.
    pub fn insert(&mut self, key: String, value: SqlValue)
        requires
            unique_keys(old(self)@),
        ensures
            final(self)@ == upsert(old(self)@, key@, value),
            unique_keys(final(self)@),
    {
        let ghost e = self@;
        let mut i: usize = 0;
        while i < self.entries.len()
            invariant
                self@ == e,
                e == old(self)@,
                unique_keys(e),
                i <= e.len(),
                forall|j: int| 0 <= j < i ==> #[trigger] e[j].0 != key@,
            decreases self.entries.len() - i,
        {
            if self.entries[i].0 == key {
                let ghost k = key@;
                proof {
                    assert(e[i as int].0 == k);
                    assert(has_key(e, k));
                    let c = choose|j: int| 0 <= j < e.len() && #[trigger] e[j].0 == k;
                    assert(c == i);
                    assert(upsert(e, k, value) == e.update(i as int, (k, value)));
                }
                self.entries.set(i, (key, value));
                assert(self@ =~= e.update(i as int, (k, value)));
                return;
            }
            i += 1;
        }
        let ghost k = key@;
        self.entries.push((key, value));
        assert(self@ =~= e.push((k, value)));
    }

    /// The value of the entry named `key`, if there is one.
    pub fn get(&self, key: &String) -> (r: Option<&SqlValue>)
        ensures
            r matches Some(v) ==> exists|j: int|
                0 <= j < self@.len() && #[trigger] self@[j] == (key@, *v),
            r is None ==> !has_key(self@, key@),
    {
        let mut i: usize = 0;
        while i < self.entries.len()
            invariant
                i <= self@.len(),
                forall|j: int| 0 <= j < i ==> #[trigger] self@[j].0 != key@,
            decreases self.entries.len() - i,
        {
            if self.entries[i].0 == *key {
                assert(self@[i as int] == (key@, self.entries[i as int].1));
                return Some(&self.entries[i].1);
            }
            i += 1;
        }
        None
    }

    /// The number of entries.
    pub fn len(&self) -> (r: usize)
        ensures
            r == self@.len(),
    {
        self.entries.len()
    }
}

} // verus!
