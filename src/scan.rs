use crate::attr::{AttrMap, AttrSeq};
use crate::error::AllError;
use crate::model::Record;
use vstd::prelude::*;

verus! {

/// What a scan does with a record that does not decode.
#[derive(PartialEq, Eq, Structural, Clone, Copy, Debug)]
pub enum DecodePolicy {
    /// Drop the record and go on.
    Skip,
    /// End the scan with `CorruptRecord`.
    Fail,
}

/// Where a scan stands.
#[derive(Debug)]
pub enum ScanStatus {
    /// Another page is to be fetched.
    Running,
    /// The store returned no continuation key: every page has been read.
    Done,
    /// The scan ended with an error.
    Failed(AllError),
}

/// One scan call for the store to make: the table, the filter as an
/// equality conjunction over attributes, and the continuation key.
#[derive(Debug)]
pub struct ScanRequest {
    pub table: String,
    pub filter: AttrMap,
    pub start_key: Option<AttrMap>,
}

/// The views of a sequence of values.
pub open spec fn views<E: View>(s: Seq<E>) -> Seq<E::V> {
    s.map_values(|e: E| e@)
}

/// The views of a sequence of attribute maps.
pub open spec fn map_views(s: Seq<AttrMap>) -> Seq<AttrSeq> {
    s.map_values(|m: AttrMap| m@)
}

/// The entities that a run of raw records decodes to, in order, dropping
/// those that do not decode.
pub open spec fn decode_all<E: Record>(items: Seq<AttrSeq>) -> Seq<E::V>
    decreases items.len(),
{
    if items.len() == 0 {
        Seq::empty()
    } else {
        let rest = decode_all::<E>(items.drop_last());
        match E::decode_spec(items.last()) {
            Some(v) => rest.push(v),
            None => rest,
        }
    }
}

/// Whether every raw record decodes.
pub open spec fn all_decode<E: Record>(items: Seq<AttrSeq>) -> bool {
    forall|i: int| 0 <= i < items.len() ==> (#[trigger] E::decode_spec(items[i])) is Some
}

/// The records of all pages, page after page.
pub open spec fn concat_pages(pages: Seq<Seq<AttrSeq>>) -> Seq<AttrSeq>
    decreases pages.len(),
{
    if pages.len() == 0 {
        Seq::empty()
    } else {
        concat_pages(pages.drop_last()) + pages.last()
    }
}

/// What a scan gathers from its pages: each page decoded, page after page.
pub open spec fn decode_pages<E: Record>(pages: Seq<Seq<AttrSeq>>) -> Seq<E::V>
    decreases pages.len(),
{
    if pages.len() == 0 {
        Seq::empty()
    } else {
        decode_pages::<E>(pages.drop_last()) + decode_all::<E>(pages.last())
    }
}

/// Decoding distributes over concatenation.
pub proof fn lemma_decode_all_append<E: Record>(a: Seq<AttrSeq>, b: Seq<AttrSeq>)
    ensures
        decode_all::<E>(a + b) == decode_all::<E>(a) + decode_all::<E>(b),
    decreases b.len(),
{
    if b.len() == 0 {
        assert(a + b =~= a);
        assert(decode_all::<E>(b) =~= Seq::<E::V>::empty());
        assert(decode_all::<E>(a) + decode_all::<E>(b) =~= decode_all::<E>(a));
    } else {
        lemma_decode_all_append::<E>(a, b.drop_last());
        assert((a + b).drop_last() =~= a + b.drop_last());
        assert((a + b).last() == b.last());
        let da = decode_all::<E>(a);
        let db = decode_all::<E>(b.drop_last());
        match E::decode_spec(b.last()) {
            Some(v) => {
                assert(da + db.push(v) =~= (da + db).push(v));
            },
            None => {},
        }
    }
}

/// Where every record decodes, nothing is dropped.
pub proof fn lemma_decode_all_len<E: Record>(items: Seq<AttrSeq>)
    requires
        all_decode::<E>(items),
    ensures
        decode_all::<E>(items).len() == items.len(),
    decreases items.len(),
{
    if items.len() > 0 {
        let rest = items.drop_last();
        assert forall|i: int| 0 <= i < rest.len() implies (#[trigger] E::decode_spec(
            rest[i],
        )) is Some by {
            assert(rest[i] == items[i]);
        }
        lemma_decode_all_len::<E>(rest);
        assert(E::decode_spec(items[items.len() - 1]) is Some);
    }
}

/// However the matching records are split into pages, a scan gathers the
/// same entities as one page holding them all; where every record decodes,
/// it gathers exactly as many entities as there are records.
pub proof fn lemma_pagination_complete<E: Record>(pages: Seq<Seq<AttrSeq>>)
    ensures
        decode_pages::<E>(pages) == decode_all::<E>(concat_pages(pages)),
        all_decode::<E>(concat_pages(pages)) ==> decode_pages::<E>(pages).len()
            == concat_pages(pages).len(),
    decreases pages.len(),
{
    if pages.len() > 0 {
        lemma_pagination_complete::<E>(pages.drop_last());
        lemma_decode_all_append::<E>(concat_pages(pages.drop_last()), pages.last());
    }
    if all_decode::<E>(concat_pages(pages)) {
        lemma_decode_all_len::<E>(concat_pages(pages));
    }
}

/// Under the failing policy, a scan that has not failed has decoded every
/// record it was handed.
pub open spec fn pages_ok<E: Record>(policy: DecodePolicy, pages: Seq<Seq<AttrSeq>>) -> bool {
    policy is Fail ==> all_decode::<E>(concat_pages(pages))
}

/// A paginated, filtered scan of one table. The store calls are made by
/// whoever drives it: `request` says what to ask, `on_page` and
/// `on_store_error` hand back what came.
pub struct Scan<E> {
    pub table: String,
    pub filter: AttrMap,
    pub policy: DecodePolicy,
    pub found: Vec<E>,
    pub start_key: Option<AttrMap>,
    pub status: ScanStatus,
    /// The raw records of each page handed in so far.
    pub pages: Ghost<Seq<Seq<AttrSeq>>>,
}

impl<E: Record> Scan<E> {
    /// What the scan has gathered is what its pages decode to.
    pub open spec fn wf(&self) -> bool {
        &&& !(self.status is Failed) ==> views(self.found@) == decode_pages::<E>(self.pages@)
        &&& !(self.status is Failed) ==> pages_ok::<E>(self.policy, self.pages@)
    }

    pub open spec fn is_running_spec(&self) -> bool {
        self.status is Running
    }

    pub fn new(table: &str, filter: AttrMap, policy: DecodePolicy) -> (r: Scan<E>)
        ensures
            r.wf(),
            r.table@ == table@,
            r.filter@ == filter@,
            r.policy == policy,
            r.status is Running,
            r.start_key is None,
            r.pages@ == Seq::<Seq<AttrSeq>>::empty(),
    {
        let r = Scan {
            table: String::from_str(table),
            filter,
            policy,
            found: Vec::new(),
            start_key: None,
            status: ScanStatus::Running,
            pages: Ghost(Seq::empty()),
        };
        assert(views(r.found@) =~= Seq::<E::V>::empty());
        r
    }

    pub fn is_running(&self) -> (r: bool)
        ensures
            r == self.is_running_spec(),
    {
        match self.status {
            ScanStatus::Running => true,
            _ => false,
        }
    }

    /// The next scan call: same table and filter, from the last
    /// continuation key.
    pub fn request(&self) -> (r: ScanRequest)
        ensures
            r.table@ == self.table@,
            r.filter@ == self.filter@,
            match (r.start_key, self.start_key) {
                (Some(a), Some(b)) => a@ == b@,
                (None, None) => true,
                _ => false,
            },
    {
        let start_key = match &self.start_key {
            Some(k) => Some(k.copy_map()),
            None => None,
        };
        ScanRequest { table: self.table.clone(), filter: self.filter.copy_map(), start_key }
    }

    /// Takes in one page of raw records and the continuation key that came
    /// with it.
    pub fn on_page(&mut self, items: Vec<AttrMap>, last_key: Option<AttrMap>)
        requires
            old(self).wf(),
            old(self).is_running_spec(),
        ensures
            final(self).wf(),
            final(self).pages@ == old(self).pages@.push(map_views(items@)),
            final(self).table == old(self).table,
            final(self).filter == old(self).filter,
            final(self).policy == old(self).policy,
            old(self).policy is Fail && !all_decode::<E>(map_views(items@)) ==> final(self).status
                == ScanStatus::Failed(AllError::CorruptRecord),
            !(old(self).policy is Fail && !all_decode::<E>(map_views(items@))) ==> {
                &&& views(final(self).found@) == views(old(self).found@) + decode_all::<E>(
                    map_views(items@),
                )
                &&& last_key is None ==> final(self).status is Done
                &&& last_key is Some ==> final(self).status is Running
                &&& final(self).start_key == last_key
            },
    {
        let ghost raw = map_views(items@);
        let ghost old_found = views(self.found@);
        let ghost old_pages = self.pages@;
        self.pages = Ghost(self.pages@.push(raw));
        let mut i: usize = 0;
        while i < items.len()
            invariant
                0 <= i <= items@.len(),
                raw == map_views(items@),
                self.pages@ == old_pages.push(raw),
                old_pages == old(self).pages@,
                views(self.found@) == old_found + decode_all::<E>(raw.take(i as int)),
                self.policy is Fail ==> all_decode::<E>(raw.take(i as int)),
                self.status is Running,
                self.table == old(self).table,
                self.filter == old(self).filter,
                self.policy == old(self).policy,
                self.start_key == old(self).start_key,
            decreases items@.len() - i,
        {
            let ghost before = self.found@;
            assert(raw.take(i + 1).drop_last() =~= raw.take(i as int));
            assert(raw.take(i + 1).last() == items@[i as int]@);
            match E::decode(&items[i]) {
                Some(e) => {
                    self.found.push(e);
                    assert(views(self.found@) =~= views(before).push(e@));
                },
                None => {
                    if self.policy == DecodePolicy::Fail {
                        self.status = ScanStatus::Failed(AllError::CorruptRecord);
                        assert(!all_decode::<E>(raw)) by {
                            assert(raw[i as int] == items@[i as int]@);
                        }
                        return;
                    }
                },
            }
            proof {
                if self.policy is Fail {
                    assert forall|j: int| 0 <= j < raw.take(i + 1).len() implies (
                    #[trigger] E::decode_spec(raw.take(i + 1)[j])) is Some by {
                        if j < i {
                            assert(raw.take(i + 1)[j] == raw.take(i as int)[j]);
                        }
                    }
                }
            }
            i = i + 1;
        }
        assert(raw.take(items@.len() as int) =~= raw);
        proof {
            assert(self.pages@.drop_last() =~= old_pages);
            assert(self.pages@.last() == raw);
            assert(concat_pages(self.pages@) == concat_pages(old_pages) + raw);
            assert(decode_pages::<E>(self.pages@) == decode_pages::<E>(old_pages) + decode_all::<E>(
                raw,
            ));
            if self.policy is Fail {
                assert forall|j: int| 0 <= j < concat_pages(self.pages@).len() implies (
                #[trigger] E::decode_spec(concat_pages(self.pages@)[j])) is Some by {
                    if j < concat_pages(old_pages).len() {
                        assert(concat_pages(self.pages@)[j] == concat_pages(old_pages)[j]);
                    } else {
                        assert(concat_pages(self.pages@)[j] == raw[j - concat_pages(
                            old_pages,
                        ).len()]);
                    }
                }
            }
        }
        match last_key {
            None => {
                self.status = ScanStatus::Done;
                self.start_key = None;
            },
            Some(k) => {
                self.start_key = Some(k);
            },
        }
    }

    /// The scan's result: every entity gathered once the pages are
    /// exhausted, or the error it ended with.
    pub fn finish(self) -> (r: Result<Vec<E>, AllError>)
        requires
            self.wf(),
            !self.is_running_spec(),
        ensures
            self.status is Done ==> r is Ok && views(r->Ok_0@) == decode_pages::<E>(self.pages@)
                && pages_ok::<E>(self.policy, self.pages@),
            self.status is Failed ==> r == Err::<Vec<E>, AllError>(self.status->Failed_0),
    {
        match self.status {
            ScanStatus::Failed(e) => Err(e),
            _ => Ok(self.found),
        }
    }

    /// A failed store call ends the scan with `StoreError`.
    pub fn on_store_error(&mut self, detail: String)
        requires
            old(self).wf(),
            old(self).is_running_spec(),
        ensures
            final(self).wf(),
            final(self).status == ScanStatus::Failed(AllError::StoreError(detail)),
            final(self).pages == old(self).pages,
            views(final(self).found@) == views(old(self).found@),
    {
        self.status = ScanStatus::Failed(AllError::StoreError(detail));
    }
}

} // verus!
