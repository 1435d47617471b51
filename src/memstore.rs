use crate::attr::{lookup, lookup_n, AttrMap, AttrSeq, AttrValue, AttrValueV};
use crate::scan::map_views;
use vstd::prelude::*;
use vstd::string::*;

verus! {

/// Whether a record holds every attribute of `conds` with the same value:
/// both "matches a filter" and "has this key".
pub open spec fn satisfies(item: AttrSeq, conds: AttrSeq) -> bool {
    forall|i: int| 0 <= i < conds.len() ==> lookup(item, #[trigger] conds[i].0) == Some(conds[i].1)
}

/// The records that remain once those with key `key` are removed.
pub open spec fn without_key(items: Seq<AttrSeq>, key: AttrSeq) -> Seq<AttrSeq> {
    items.filter(|it: AttrSeq| !satisfies(it, key))
}

/// The position a continuation token resumes from.
pub open spec fn resume_at(start: Option<AttrSeq>, len: int) -> int {
    match start {
        None => 0,
        Some(t) => match lookup_n(t, "offset"@) {
            Some(n) => if 0 <= n <= len {
                n as int
            } else {
                len
            },
            None => len,
        },
    }
}

/// The continuation token that resumes at position `at`.
pub open spec fn token_spec(at: int) -> AttrSeq {
    seq![("offset"@, AttrValueV::N(at as i64))]
}

pub open spec fn min(a: int, b: int) -> int {
    if a <= b {
        a
    } else {
        b
    }
}

/// Whether two attribute values are equal.
pub fn same_value(a: &AttrValue, b: &AttrValue) -> (r: bool)
    ensures
        r == (a@ == b@),
{
    match (a, b) {
        (AttrValue::S(x), AttrValue::S(y)) => *x == *y,
        (AttrValue::N(x), AttrValue::N(y)) => *x == *y,
        (AttrValue::Bool(x), AttrValue::Bool(y)) => *x == *y,
        _ => false,
    }
}

/// Whether `item` holds every attribute of `conds` with the same value.
pub fn satisfies_exec(item: &AttrMap, conds: &AttrMap) -> (r: bool)
    ensures
        r == satisfies(item@, conds@),
{
    let mut i: usize = 0;
    while i < conds.entries.len()
        invariant
            0 <= i <= conds.entries@.len(),
            forall|j: int| 0 <= j < i ==> lookup(item@, #[trigger] conds@[j].0) == Some(conds@[j].1),
        decreases conds.entries@.len() - i,
    {
        let c = &conds.entries[i];
        assert(conds@[i as int] == (c.name@, c.value@));
        match item.get(c.name.as_str()) {
            Some(v) => {
                if !same_value(v, &c.value) {
                    assert(lookup(item@, conds@[i as int].0) != Some(conds@[i as int].1));
                    return false;
                }
            },
            None => {
                assert(lookup(item@, conds@[i as int].0) != Some(conds@[i as int].1));
                return false;
            },
        }
        i = i + 1;
    }
    true
}

/// A table held in memory with the semantics that the services expect of
/// the store: a put replaces the record with the same key, a delete of an
/// absent key succeeds, and a scan reads pages of at most `limit` records
/// and filters them.
pub struct MemTable {
    pub key_names: Vec<String>,
    pub items: Vec<AttrMap>,
}

impl MemTable {
    pub open spec fn rows(&self) -> Seq<AttrSeq> {
        map_views(self.items@)
    }

    pub fn new(key_names: Vec<String>) -> (r: MemTable)
        ensures
            r.key_names@ == key_names@,
            r.rows() == Seq::<AttrSeq>::empty(),
    {
        let r = MemTable { key_names, items: Vec::new() };
        assert(r.rows() =~= Seq::<AttrSeq>::empty());
        r
    }

    /// Removes every record whose key is `key`; succeeds whether or not
    /// there was one.
    pub fn delete(&mut self, key: &AttrMap) -> (r: Result<(), String>)
        ensures
            r is Ok,
            final(self).key_names == old(self).key_names,
            final(self).rows() == without_key(old(self).rows(), key@),
            forall|i: int|
                0 <= i < final(self).rows().len() ==> !satisfies(
                    #[trigger] final(self).rows()[i],
                    key@,
                ),
    {
        let ghost pred = |it: AttrSeq| !satisfies(it, key@);
        let ghost old_rows = self.rows();
        let mut old_items: Vec<AttrMap> = Vec::new();
        std::mem::swap(&mut old_items, &mut self.items);
        assert(map_views(old_items@) == old_rows);
        let mut i: usize = 0;
        while i < old_items.len()
            invariant
                0 <= i <= old_items@.len(),
                map_views(old_items@) == old_rows,
                self.key_names == old(self).key_names,
                self.rows() == old_rows.take(i as int).filter(pred),
                pred == (|it: AttrSeq| !satisfies(it, key@)),
            decreases old_items@.len() - i,
        {
            let ghost before = self.items@;
            reveal(Seq::filter);
            assert(old_rows.take(i + 1).drop_last() =~= old_rows.take(i as int));
            assert(old_rows.take(i + 1).last() == old_items@[i as int]@);
            if !satisfies_exec(&old_items[i], key) {
                self.items.push(old_items[i].copy_map());
                assert(self.rows() =~= map_views(before).push(old_items@[i as int]@));
            } else {
                assert(self.items@ == before);
            }
            i = i + 1;
        }
        assert(old_rows.take(old_items@.len() as int) =~= old_rows);
        proof {
            assert forall|i: int| 0 <= i < self.rows().len() implies !satisfies(
                #[trigger] self.rows()[i],
                key@,
            ) by {
                old_rows.lemma_filter_pred(pred, i);
            }
        }
        Ok(())
    }

    /// The key of a record: its value of each key attribute.
    pub fn key_of(&self, item: &AttrMap) -> (r: Option<AttrMap>)
        ensures
            match r {
                Some(k) => k@.len() == self.key_names@.len() && satisfies(item@, k@) && forall|
                    i: int,
                | 0 <= i < k@.len() ==> (#[trigger] k@[i]).0 == self.key_names@[i]@,
                None => exists|i: int|
                    0 <= i < self.key_names@.len() && lookup(
                        item@,
                        #[trigger] self.key_names@[i]@,
                    ) is None,
            },
    {
        let mut k = AttrMap::new();
        let mut i: usize = 0;
        while i < self.key_names.len()
            invariant
                0 <= i <= self.key_names@.len(),
                k@.len() == i,
                satisfies(item@, k@),
                forall|j: int| 0 <= j < i ==> (#[trigger] k@[j]).0 == self.key_names@[j]@,
            decreases self.key_names@.len() - i,
        {
            let name = self.key_names[i].as_str();
            match item.get(name) {
                Some(v) => {
                    k.push(name, v.copy_value());
                },
                None => {
                    return None;
                },
            }
            i = i + 1;
        }
        Some(k)
    }

    /// Stores a record, replacing the one with the same key; a record that
    /// lacks a key attribute is refused.
    pub fn put(&mut self, item: AttrMap) -> (r: Result<(), String>)
        ensures
            final(self).key_names == old(self).key_names,
            match r {
                Ok(()) => exists|k: AttrSeq|
                    satisfies(item@, k) && k.len() == old(self).key_names@.len() && (forall|i: int|
                        0 <= i < k.len() ==> (#[trigger] k[i]).0 == old(self).key_names@[i]@)
                        && final(self).rows() == without_key(old(self).rows(), k).push(item@),
                Err(_) => final(self).rows() == old(self).rows() && exists|i: int|
                    0 <= i < old(self).key_names@.len() && lookup(
                        item@,
                        #[trigger] old(self).key_names@[i]@,
                    ) is None,
            },
    {
        match self.key_of(&item) {
            None => Err(String::from_str("missing key attribute")),
            Some(k) => {
                let _ = self.delete(&k);
                let ghost before = self.items@;
                self.items.push(item);
                assert(self.rows() =~= map_views(before).push(item@));
                Ok(())
            },
        }
    }

    /// One page of a scan: the records from the token's position, at most
    /// `limit` of them, that satisfy `filter`, and the token of the next
    /// page if any records remain.
    pub fn scan_page(&self, filter: &AttrMap, start: &Option<AttrMap>, limit: usize) -> (r: (
        Vec<AttrMap>,
        Option<AttrMap>,
    ))
        requires
            limit > 0,
            self.items@.len() < i64::MAX,
        ensures
            ({
                let from = resume_at(
                    match start {
                        Some(t) => Some(t@),
                        None => None,
                    },
                    self.rows().len() as int,
                );
                let to = min(from + limit, self.rows().len() as int);
                &&& map_views(r.0@) == self.rows().subrange(from, to).filter(
                    |it: AttrSeq| satisfies(it, filter@),
                )
                &&& to < self.rows().len() ==> r.1 is Some && r.1->Some_0@ == token_spec(to)
                &&& to >= self.rows().len() ==> r.1 is None
            }),
    {
        let len = self.items.len();
        let from: usize = match start {
            None => 0,
            Some(t) => match t.get_n("offset") {
                Some(n) => if 0 <= n && n <= len as i64 {
                    n as usize
                } else {
                    len
                },
                None => len,
            },
        };
        let to: usize = if limit <= len - from {
            from + limit
        } else {
            len
        };
        assert(to as int == min(from + limit, len as int));
        let ghost pred = |it: AttrSeq| satisfies(it, filter@);
        let ghost rows = self.rows();
        let mut out: Vec<AttrMap> = Vec::new();
        let mut i: usize = from;
        while i < to
            invariant
                from <= i <= to <= len,
                len == self.items@.len(),
                rows == self.rows(),
                map_views(out@) == rows.subrange(from as int, i as int).filter(pred),
                pred == (|it: AttrSeq| satisfies(it, filter@)),
            decreases to - i,
        {
            let ghost before = out@;
            reveal(Seq::filter);
            assert(rows.subrange(from as int, i + 1).drop_last() =~= rows.subrange(
                from as int,
                i as int,
            ));
            assert(rows.subrange(from as int, i + 1).last() == self.items@[i as int]@);
            if satisfies_exec(&self.items[i], filter) {
                out.push(self.items[i].copy_map());
                assert(map_views(out@) =~= map_views(before).push(self.items@[i as int]@));
            }
            i = i + 1;
        }
        if to < len {
            let mut t = AttrMap::new();
            t.push_n("offset", to as i64);
            assert(t@ =~= token_spec(to as int));
            (out, Some(t))
        } else {
            (out, None)
        }
    }
}

/// Deleting a key that no record holds succeeds and leaves the table as it
/// was, and afterwards no record holds that key.
pub proof fn lemma_delete_missing_key(rows: Seq<AttrSeq>, key: AttrSeq)
    requires
        forall|i: int| 0 <= i < rows.len() ==> !satisfies(#[trigger] rows[i], key),
    ensures
        without_key(rows, key) == rows,
        forall|i: int|
            0 <= i < without_key(rows, key).len() ==> !satisfies(
                #[trigger] without_key(rows, key)[i],
                key,
            ),
    decreases rows.len(),
{
    let pred = |it: AttrSeq| !satisfies(it, key);
    reveal(Seq::filter);
    if rows.len() > 0 {
        let rest = rows.drop_last();
        assert forall|i: int| 0 <= i < rest.len() implies !satisfies(#[trigger] rest[i], key) by {
            assert(rest[i] == rows[i]);
        }
        lemma_delete_missing_key(rest, key);
        assert(!satisfies(rows[rows.len() - 1], key));
        assert(rest.push(rows.last()) =~= rows);
        assert(rows.filter(pred) == rest.filter(pred).push(rows.last()));
    } else {
        assert(rows.filter(pred) == rows);
    }
    assert(rows.filter(pred) == without_key(rows, key));
}

} // verus!
