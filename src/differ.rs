use vstd::prelude::*;
use crate::protocol::{StoreError, encode_all, encoded_views, payloads_fit};
use crate::record::{ModelData, ModelResponse, RecordView, copy_record, same_record, views_of};

verus! {

/// The records that a read of the store gave, in wire form, or `None` when
/// the read failed.
pub open spec fn read_view(read: Result<Vec<ModelData>, StoreError>) -> Option<Seq<RecordView>> {
    match read {
        Ok(ms) => Some(encoded_views(ms@)),
        Err(_) => None,
    }
}

/// One polling step over the last broadcast snapshot `last`: the snapshot
/// afterwards, and the list to broadcast, if any. A failed read keeps the
/// snapshot and broadcasts nothing; a read whose records form the same set as
/// the snapshot broadcasts nothing; any other read becomes the snapshot and is
/// broadcast whole.
pub open spec fn poll_step(last: Set<RecordView>, read: Option<Seq<RecordView>>) -> (
    Set<RecordView>,
    Option<Seq<RecordView>>,
) {
    match read {
        None => (last, None),
        Some(v) => if v.to_set() == last {
            (last, None)
        } else {
            (v.to_set(), Some(v))
        },
    }
}

/// Reading the same records twice in a row broadcasts them at most once: the
/// second step leaves the snapshot as it is and broadcasts nothing.
pub proof fn lemma_repeated_read_is_silent(last: Set<RecordView>, v: Seq<RecordView>)
    ensures
        poll_step(poll_step(last, Some(v)).0, Some(v)) == (poll_step(last, Some(v)).0, None::<
            Seq<RecordView>,
        >),
{
}

/// After a successful read, the snapshot is exactly the set of records that
/// the store holds, whatever came before; a failed read changes nothing.
pub proof fn lemma_read_settles_snapshot(last: Set<RecordView>, read: Option<Seq<RecordView>>)
    ensures
        read matches Some(v) ==> poll_step(last, read).0 == v.to_set(),
        read is None ==> poll_step(last, read) == (last, None::<Seq<RecordView>>),
{
}

/// Whether a list of wire records holds a record equal to `x`.
pub fn contains_record(rs: &Vec<ModelResponse>, x: &ModelResponse) -> (r: bool)
    ensures
        r == views_of(rs@).contains(x@),
{
    let mut i: usize = 0;
    while i < rs.len()
        invariant
            i <= rs@.len(),
            forall|j: int| 0 <= j < i ==> views_of(rs@)[j] != x@,
        decreases rs@.len() - i,
    {
        if same_record(&rs[i], x) {
            assert(views_of(rs@)[i as int] == x@);
            return true;
        }
        i = i + 1;
    }
    false
}

/// Whether every record of `a` is in `b`.
pub fn all_within(a: &Vec<ModelResponse>, b: &Vec<ModelResponse>) -> (r: bool)
    ensures
        r == views_of(a@).to_set().subset_of(views_of(b@).to_set()),
{
    let mut i: usize = 0;
    while i < a.len()
        invariant
            i <= a@.len(),
            forall|j: int| 0 <= j < i ==> views_of(b@).contains(#[trigger] views_of(a@)[j]),
        decreases a@.len() - i,
    {
        if !contains_record(b, &a[i]) {
            assert(views_of(a@).to_set().contains(views_of(a@)[i as int]));
            return false;
        }
        i = i + 1;
    }
    assert forall|x: RecordView| views_of(a@).to_set().contains(x) implies views_of(
        b@,
    ).to_set().contains(x) by {
        let j = choose|j: int| 0 <= j < views_of(a@).len() && views_of(a@)[j] == x;
        assert(views_of(b@).contains(views_of(a@)[j]));
    }
    true
}

/// Whether two lists of wire records hold the same set of records.
pub fn same_set(a: &Vec<ModelResponse>, b: &Vec<ModelResponse>) -> (r: bool)
    ensures
        r == (views_of(a@).to_set() == views_of(b@).to_set()),
{
    let ab = all_within(a, b);
    let ba = all_within(b, a);
    if ab && ba {
        assert(views_of(a@).to_set() =~= views_of(b@).to_set());
    }
    ab && ba
}

/// A copy of a list of wire records.
pub fn copy_records(rs: &Vec<ModelResponse>) -> (r: Vec<ModelResponse>)
    ensures
        views_of(r@) == views_of(rs@),
{
    let mut r: Vec<ModelResponse> = Vec::new();
    let mut i: usize = 0;
    while i < rs.len()
        invariant
            i <= rs@.len(),
            views_of(r@) == views_of(rs@.subrange(0, i as int)),
        decreases rs@.len() - i,
    {
        let e = copy_record(&rs[i]);
        let ghost prev = r@;
        r.push(e);
        proof {
            assert(r@ == prev.push(e));
            assert(views_of(prev).len() == i);
            assert forall|j: int| 0 <= j < i + 1 implies views_of(r@)[j] == views_of(
                rs@.subrange(0, i + 1),
            )[j] by {
                if j < i {
                    assert(views_of(prev)[j] == views_of(rs@.subrange(0, i as int))[j]);
                }
            }
        }
        i = i + 1;
        assert(views_of(r@) =~= views_of(rs@.subrange(0, i as int)));
    }
    assert(rs@.subrange(0, i as int) =~= rs@);
    r
}

/// Watches the store by polling it, and decides when the asset list changed.
/// It holds the last broadcast list; two lists are the same when they hold the
/// same records, whatever their order.
pub struct SnapshotDiffer {
    last: Vec<ModelResponse>,
}

impl SnapshotDiffer {
    /// The set of records last broadcast.
    pub closed spec fn snapshot(&self) -> Set<RecordView> {
        views_of(self.last@).to_set()
    }

    /// A differ that has broadcast nothing yet: its snapshot is empty.
    pub fn new() -> (r: SnapshotDiffer)
        ensures
            r.snapshot() == Set::<RecordView>::empty(),
    {
        let r = SnapshotDiffer { last: Vec::new() };
        assert(r.snapshot() =~= Set::<RecordView>::empty());
        r
    }

    /// The records last broadcast.
    pub fn last_published(&self) -> (r: Vec<ModelResponse>)
        ensures
            views_of(r@).to_set() == self.snapshot(),
    {
        copy_records(&self.last)
    }

    /// One polling step, from the result of reading the whole store. Returns
    /// the list to broadcast to every connection, if the records changed.
    pub fn poll(&mut self, read: Result<Vec<ModelData>, StoreError>) -> (r: Option<
        Vec<ModelResponse>,
    >)
        requires
            read matches Ok(ms) ==> payloads_fit(ms@),
        ensures
            poll_step(old(self).snapshot(), read_view(read)) == (final(self).snapshot(), match r {
                Some(l) => Some(views_of(l@)),
                None => None::<Seq<RecordView>>,
            }),
    {
        match read {
            Err(_) => None,
            Ok(ms) => {
                let cur = encode_all(&ms);
                if same_set(&cur, &self.last) {
                    None
                } else {
                    self.last = copy_records(&cur);
                    Some(cur)
                }
            },
        }
    }
}

} // verus!
