use vstd::prelude::*;

use crate::principal::Address;

verus! {

/// No two rows share an address.
pub open spec fn unique_keys<R>(rows: Seq<(Address, R)>) -> bool {
    forall|i: int, j: int|
        0 <= i < j < rows.len() ==> (#[trigger] rows[i]).0@ != (#[trigger] rows[j]).0@
}

/// The rows of a table read as a map from address bytes to record models.
pub open spec fn rows_map<R: View>(rows: Seq<(Address, R)>) -> Map<Seq<u8>, R::V>
    decreases rows.len(),
{
    if rows.len() == 0 {
        Map::empty()
    } else {
        rows_map(rows.drop_last()).insert(rows.last().0@, rows.last().1@)
    }
}

/// An address is in the map exactly when some row holds it.
pub proof fn lemma_rows_map_domain<R: View>(rows: Seq<(Address, R)>, k: Seq<u8>)
    ensures
        rows_map(rows).contains_key(k) <==> exists|i: int|
            0 <= i < rows.len() && (#[trigger] rows[i]).0@ == k,
    decreases rows.len(),
{
    if rows.len() == 0 {
    } else {
        lemma_rows_map_domain(rows.drop_last(), k);
        if rows.last().0@ == k {
            assert((#[trigger] rows[rows.len() - 1]).0@ == k);
        } else {
            if rows_map(rows).contains_key(k) {
                let i = choose|i: int|
                    0 <= i < rows.drop_last().len() && (#[trigger] rows.drop_last()[i]).0@ == k;
                assert(rows[i].0@ == k);
            }
            if exists|i: int| 0 <= i < rows.len() && (#[trigger] rows[i]).0@ == k {
                let i = choose|i: int| 0 <= i < rows.len() && (#[trigger] rows[i]).0@ == k;
                assert(rows.drop_last()[i].0@ == k);
            }
        }
    }
}

/// Dropping the last row keeps the keys unique.
proof fn lemma_unique_drop_last<R>(rows: Seq<(Address, R)>)
    requires
        unique_keys(rows),
        rows.len() > 0,
    ensures
        unique_keys(rows.drop_last()),
{
    assert forall|a: int, b: int|
        0 <= a < b < rows.drop_last().len() implies (#[trigger] rows.drop_last()[a]).0@ != (
    #[trigger] rows.drop_last()[b]).0@ by {
        assert(rows.drop_last()[a] == rows[a]);
        assert(rows.drop_last()[b] == rows[b]);
    }
}

/// With unique keys, the map takes each row's address to that row's record.
pub proof fn lemma_rows_map_at<R: View>(rows: Seq<(Address, R)>, i: int)
    requires
        unique_keys(rows),
        0 <= i < rows.len(),
    ensures
        rows_map(rows).contains_key(rows[i].0@),
        rows_map(rows)[rows[i].0@] == rows[i].1@,
    decreases rows.len(),
{
    if i == rows.len() - 1 {
    } else {
        lemma_unique_drop_last(rows);
        lemma_rows_map_at(rows.drop_last(), i);
        assert(rows.drop_last()[i] == rows[i]);
        assert(rows.last().0@ != rows[i].0@);
    }
}

/// Appending a fresh row inserts it into the map.
pub proof fn lemma_rows_map_push<R: View>(rows: Seq<(Address, R)>, p: (Address, R))
    ensures
        rows_map(rows.push(p)) == rows_map(rows).insert(p.0@, p.1@),
{
    assert(rows.push(p).drop_last() =~= rows);
    assert(rows.push(p).last() == p);
}

/// Overwriting a row in place, keeping its address, is an insert at that
/// address; the keys stay unique.
pub proof fn lemma_rows_map_update<R: View>(rows: Seq<(Address, R)>, i: int, p: (Address, R))
    requires
        unique_keys(rows),
        0 <= i < rows.len(),
        p.0@ == rows[i].0@,
    ensures
        rows_map(rows.update(i, p)) == rows_map(rows).insert(p.0@, p.1@),
        unique_keys(rows.update(i, p)),
    decreases rows.len(),
{
    let s2 = rows.update(i, p);
    assert forall|a: int, b: int|
        0 <= a < b < s2.len() implies (#[trigger] s2[a]).0@ != (#[trigger] s2[b]).0@ by {
        assert(rows[a].0@ != rows[b].0@);
    }
    if i == rows.len() - 1 {
        assert(s2.drop_last() =~= rows.drop_last());
        assert(s2.last() == p);
        assert(rows_map(rows.drop_last()).insert(rows[i].0@, rows[i].1@).insert(p.0@, p.1@)
            =~= rows_map(rows.drop_last()).insert(p.0@, p.1@));
    } else {
        lemma_unique_drop_last(rows);
        assert(s2.drop_last() =~= rows.drop_last().update(i, p));
        assert(rows.drop_last()[i] == rows[i]);
        lemma_rows_map_update(rows.drop_last(), i, p);
        assert(s2.last() == rows.last());
        assert(rows.last().0@ != p.0@);
        assert(rows_map(rows.drop_last()).insert(p.0@, p.1@).insert(rows.last().0@, rows.last().1@)
            =~= rows_map(rows.drop_last()).insert(rows.last().0@, rows.last().1@).insert(
            p.0@,
            p.1@,
        ));
    }
}

/// A table of records keyed by derived address, read as a map in contracts.
pub struct Table<R> {
    pub rows: Vec<(Address, R)>,
}

impl<R: View> View for Table<R> {
    type V = Map<Seq<u8>, <R as View>::V>;

    open spec fn view(&self) -> Map<Seq<u8>, <R as View>::V> {
        rows_map(self.rows@)
    }
}

impl<R: View> Table<R> {
    pub open spec fn wf(&self) -> bool {
        unique_keys(self.rows@)
    }

    pub fn new() -> (r: Table<R>)
        ensures
            r.wf(),
            r@ == Map::<Seq<u8>, <R as View>::V>::empty(),
    {
        Table { rows: Vec::new() }
    }

    /// The position of the row holding this address, if any.
    fn index_of(&self, key: &Address) -> (r: Option<usize>)
        ensures
            match r {
                Some(i) => i < self.rows@.len() && self.rows@[i as int].0@ == key@,
                None => forall|j: int|
                    0 <= j < self.rows@.len() ==> (#[trigger] self.rows@[j]).0@ != key@,
            },
    {
        let n = self.rows.len();
        let mut i: usize = 0;
        while i < n
            invariant
                i <= n,
                n == self.rows@.len(),
                forall|j: int| 0 <= j < i ==> (#[trigger] self.rows@[j]).0@ != key@,
            decreases n - i,
        {
            let row = &self.rows[i];
            if row.0.eq_bytes(key) {
                return Some(i);
            }
            i += 1;
        }
        None
    }

    /// Whether a record is already stored at this address.
    pub fn contains_key(&self, key: &Address) -> (r: bool)
        requires
            self.wf(),
        ensures
            r == self@.contains_key(key@),
    {
        proof {
            lemma_rows_map_domain::<R>(self.rows@, key@);
        }
        match self.index_of(key) {
            Some(i) => {
                proof {
                    lemma_rows_map_at::<R>(self.rows@, i as int);
                }
                true
            },
            None => false,
        }
    }

    /// The record stored at this address, if any.
    pub fn get(&self, key: &Address) -> (r: Option<&R>)
        requires
            self.wf(),
        ensures
            match r {
                Some(v) => self@.contains_key(key@) && v@ == self@[key@],
                None => !self@.contains_key(key@),
            },
    {
        proof {
            lemma_rows_map_domain::<R>(self.rows@, key@);
        }
        match self.index_of(key) {
            Some(i) => {
                proof {
                    lemma_rows_map_at::<R>(self.rows@, i as int);
                }
                Some(&self.rows[i].1)
            },
            None => None,
        }
    }

    /// Store a record at an address that holds none yet.
    pub fn insert_new(&mut self, key: Address, value: R)
        requires
            old(self).wf(),
            !old(self)@.contains_key(key@),
        ensures
            final(self).wf(),
            final(self)@ == old(self)@.insert(key@, value@),
    {
        proof {
            lemma_rows_map_domain::<R>(self.rows@, key@);
        }
        let ghost old_rows = self.rows@;
        let pair = (key, value);
        let ghost p = pair;
        self.rows.push(pair);
        proof {
            lemma_rows_map_push::<R>(old_rows, p);
            assert forall|a: int, b: int|
                0 <= a < b < self.rows@.len() implies (#[trigger] self.rows@[a]).0@ != (
            #[trigger] self.rows@[b]).0@ by {
                if b < old_rows.len() {
                    assert(old_rows[a].0@ != old_rows[b].0@);
                } else {
                    assert(self.rows@[b].0@ == key@);
                    assert(old_rows[a].0@ != key@);
                }
            }
        }
    }

    /// Overwrite the record stored at this address.
    pub fn replace(&mut self, key: &Address, value: R)
        requires
            old(self).wf(),
            old(self)@.contains_key(key@),
        ensures
            final(self).wf(),
            final(self)@ == old(self)@.insert(key@, value@),
    {
        proof {
            lemma_rows_map_domain::<R>(self.rows@, key@);
        }
        match self.index_of(key) {
            Some(i) => {
                let ghost old_rows = self.rows@;
                let pair = (*key, value);
                let ghost p = pair;
                self.rows[i] = pair;
                proof {
                    lemma_rows_map_update::<R>(old_rows, i as int, p);
                }
            },
            None => {
                proof {
                    assert(false);
                }
            },
        }
    }
}

} // verus!
