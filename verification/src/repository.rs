//! The prediction repository: durable persistence of detection records.
//!
//! [`PredictionStore`] is the in-memory table the verified workflows run
//! against; the real system keeps the same table in a relational store, whose
//! driver performs each of these single-row operations atomically. The store
//! doubles as the test collaborator: it logs one [`RepoCall`] per operation,
//! so tests can assert how often the repository was reached.
//!
//! Records are never deleted, so the record inserted `n`-th sits at position
//! `n` and carries the identifier `uuid_of(n)`; by
//! [`crate::ident::lemma_uuid_of_injective`] every insertion returns a fresh
//! identifier.

use vstd::prelude::*;
use crate::ident::uuid_of;
use crate::ident::uuid_string;
use crate::models::Beam;
use crate::models::BeamModel;
use crate::models::PredictionRecord;
use crate::models::RecordModel;
use crate::models::clone_beams;

verus! {

/// One repository round trip, as the store's log records it.
#[derive(Clone, Copy, PartialEq, Eq, Structural, Debug)]
pub enum RepoCall {
    Insert,
    Fetch,
    Correct,
}

/// The correction target does not exist.
#[derive(Clone, Copy, PartialEq, Eq, Structural, Debug)]
pub struct NotFoundError;

/// The durable table of prediction records, keyed by identifier.
pub struct PredictionStore {
    pub records: Vec<PredictionRecord>,
    pub log: Vec<RepoCall>,
}

/// Mathematical value of a [`PredictionStore`].
#[verifier::ext_equal]
pub ghost struct StoreModel {
    pub records: Seq<RecordModel>,
    pub log: Seq<RepoCall>,
}

impl View for PredictionStore {
    type V = StoreModel;

    open spec fn view(&self) -> StoreModel {
        StoreModel { records: self.records.deep_view(), log: self.log@ }
    }
}

/// Well-formedness of the table: the record at position `n` carries the
/// identifier assigned to `n`.
pub open spec fn store_wf(m: StoreModel) -> bool {
    forall|i: int| 0 <= i < m.records.len() ==> (#[trigger] m.records[i]).id == uuid_of(i as u64)
}

/// Position of the record carrying `id`, if any.
pub open spec fn id_index(records: Seq<RecordModel>, id: Seq<char>) -> Option<int>
    decreases records.len(),
{
    if records.len() == 0 {
        None
    } else if records[0].id == id {
        Some(0)
    } else {
        match id_index(records.drop_first(), id) {
            Some(j) => Some(j + 1),
            None => None,
        }
    }
}

/// `id_index` finds the first record carrying `id`, and finds none exactly
/// when no record carries it.
pub proof fn lemma_id_index_props(records: Seq<RecordModel>, id: Seq<char>)
    ensures
        match id_index(records, id) {
            Some(i) => 0 <= i < records.len() && records[i].id == id && (forall|j: int|
                0 <= j < i ==> (#[trigger] records[j]).id != id),
            None => forall|j: int| 0 <= j < records.len() ==> (#[trigger] records[j]).id != id,
        },
    decreases records.len(),
{
    if records.len() > 0 && records[0].id != id {
        let rest = records.drop_first();
        lemma_id_index_props(rest, id);
        match id_index(rest, id) {
            Some(j) => {
                assert(records[j + 1].id == id);
                assert forall|k: int| 0 <= k < j + 1 implies (#[trigger] records[k]).id != id by {
                    if k > 0 {
                        assert(rest[k - 1] == records[k]);
                    }
                }
            },
            None => {
                assert forall|k: int| 0 <= k < records.len() implies (#[trigger] records[k]).id
                    != id by {
                    if k > 0 {
                        assert(rest[k - 1] == records[k]);
                    }
                }
            },
        }
    }
}

/// `id_index` looks only at identifiers: two tables whose records carry the
/// same identifiers position-by-position index alike.
pub proof fn lemma_id_index_same_ids(r1: Seq<RecordModel>, r2: Seq<RecordModel>, id: Seq<char>)
    requires
        r1.len() == r2.len(),
        forall|j: int| 0 <= j < r1.len() ==> (#[trigger] r1[j]).id == r2[j].id,
    ensures
        id_index(r1, id) == id_index(r2, id),
    decreases r1.len(),
{
    if r1.len() > 0 {
        assert(r1[0].id == r2[0].id);
        let t1 = r1.drop_first();
        let t2 = r2.drop_first();
        assert forall|j: int| 0 <= j < t1.len() implies (#[trigger] t1[j]).id == t2[j].id by {
            assert(t1[j] == r1[j + 1]);
            assert(t2[j] == r2[j + 1]);
        }
        lemma_id_index_same_ids(t1, t2, id);
    }
}

/// Transition of one insertion: a fresh record, holding exactly the given
/// detections and the given image reference and no correction, is appended
/// under the next identifier.
pub open spec fn insert_spec(m: StoreModel, detections: Seq<BeamModel>, image_ref: Seq<char>) -> (
    StoreModel,
    Seq<char>,
) {
    let id = uuid_of(m.records.len() as u64);
    let record = RecordModel { id, detections, image_ref: Some(image_ref), correction: None };
    (StoreModel { records: m.records.push(record), log: m.log.push(RepoCall::Insert) }, id)
}

/// Transition of one lookup: the store is unchanged except for its log; the
/// result is the record carrying `id`, if any.
pub open spec fn fetch_spec(m: StoreModel, id: Seq<char>) -> (StoreModel, Option<RecordModel>) {
    let m1 = StoreModel { records: m.records, log: m.log.push(RepoCall::Fetch) };
    match id_index(m.records, id) {
        Some(i) => (m1, Some(m.records[i])),
        None => (m1, None),
    }
}

/// Transition of one correction write: when a record carries `id`, its
/// `correction` is replaced wholesale by the given list; otherwise nothing
/// but the log changes.
pub open spec fn apply_correction_spec(
    m: StoreModel,
    id: Seq<char>,
    correction: Seq<BeamModel>,
) -> (StoreModel, bool) {
    let log1 = m.log.push(RepoCall::Correct);
    match id_index(m.records, id) {
        Some(i) => (
            StoreModel {
                records: m.records.update(
                    i,
                    RecordModel { correction: Some(correction), ..m.records[i] },
                ),
                log: log1,
            },
            true,
        ),
        None => (StoreModel { records: m.records, log: log1 }, false),
    }
}

impl PredictionStore {
    /// An empty table.
    pub fn new() -> (r: Self)
        ensures
            r@.records.len() == 0,
            r@.log.len() == 0,
            store_wf(r@),
    {
        PredictionStore { records: Vec::new(), log: Vec::new() }
    }

    /// Whether the table is well-formed; see [`store_wf`].
    pub open spec fn wf(&self) -> bool {
        store_wf(self@)
    }

    /// Position of the record carrying `id`, without a log entry; the scan is
    /// part of the enclosing single-row statement, not a round trip of its
    /// own.
    fn find_record(&self, id: &String) -> (r: Option<usize>)
        ensures
            match r {
                Some(i) => i < self@.records.len() && id_index(self@.records, id@) == Some(
                    i as int,
                ),
                None => id_index(self@.records, id@) is None,
            },
    {
        let ghost records = self@.records;
        let n: usize = self.records.len();
        let mut i: usize = 0;
        while i < n
            invariant
                n == records.len(),
                records == self@.records,
                i <= n,
                forall|j: int| 0 <= j < i ==> (#[trigger] records[j]).id != id@,
            decreases n - i,
        {
            if self.records[i].id.eq(id) {
                proof {
                    assert(self.records@[i as int].id@ == id@);
                    assert(records[i as int].id == id@);
                    lemma_id_index_props(records, id@);
                }
                return Some(i);
            }
            i = i + 1;
        }
        proof {
            lemma_id_index_props(records, id@);
        }
        None
    }

    /// Position of the record carrying `id`, or `None`; one repository round
    /// trip.
    pub(crate) fn lookup(&mut self, id: &String) -> (r: Option<usize>)
        ensures
            final(self)@ == (StoreModel {
                records: old(self)@.records,
                log: old(self)@.log.push(RepoCall::Fetch),
            }),
            match r {
                Some(i) => i < old(self)@.records.len() && id_index(old(self)@.records, id@)
                    == Some(i as int),
                None => id_index(old(self)@.records, id@) is None,
            },
    {
        self.log.push(RepoCall::Fetch);
        proof {
            assert(self@ =~= StoreModel {
                records: old(self)@.records,
                log: old(self)@.log.push(RepoCall::Fetch),
            });
        }
        self.find_record(id)
    }

    /// Fetches a copy of the record carrying `id`; `None` when no record
    /// does. One repository round trip.
    pub fn fetch_by_id(&mut self, id: &String) -> (r: Option<PredictionRecord>)
        ensures
            final(self)@ == fetch_spec(old(self)@, id@).0,
            match r {
                Some(rec) => fetch_spec(old(self)@, id@).1 == Some(rec@),
                None => fetch_spec(old(self)@, id@).1 is None,
            },
    {
        let found = self.lookup(id);
        match found {
            Some(i) => Some(self.records[i].clone()),
            None => None,
        }
    }

    /// Replaces the stored correction of the record carrying `id` wholesale
    /// with `correction` (last writer wins); `Err` when no record carries
    /// `id`, in which case no record changes. One repository round trip.
    pub fn apply_correction(&mut self, id: &String, correction: Vec<Beam>) -> (r: Result<
        (),
        NotFoundError,
    >)
        requires
            old(self).wf(),
        ensures
            final(self).wf(),
            final(self)@ == apply_correction_spec(old(self)@, id@, correction.deep_view()).0,
            r is Ok == apply_correction_spec(old(self)@, id@, correction.deep_view()).1,
    {
        let found = self.find_record(id);
        self.log.push(RepoCall::Correct);
        match found {
            Some(i) => {
                let rec = &mut self.records[i];
                rec.correction = Some(correction);
                proof {
                    assert(self@.records =~= apply_correction_spec(
                        old(self)@,
                        id@,
                        correction.deep_view(),
                    ).0.records);
                    assert(self@ =~= apply_correction_spec(
                        old(self)@,
                        id@,
                        correction.deep_view(),
                    ).0);
                }
                Ok(())
            },
            None => {
                proof {
                    assert(self@ =~= apply_correction_spec(
                        old(self)@,
                        id@,
                        correction.deep_view(),
                    ).0);
                }
                Err(NotFoundError)
            },
        }
    }
}

/// Creates a new prediction record holding exactly `beams` (in the order the
/// inference service returned them) and the content-derived key `filename`,
/// and returns its freshly generated identifier. One repository round trip;
/// the in-memory table cannot fail.
pub fn add_prediction(store: &mut PredictionStore, beams: &Vec<Beam>, filename: &String) -> (id:
    String)
    requires
        old(store).wf(),
    ensures
        final(store).wf(),
        final(store)@ == insert_spec(old(store)@, beams.deep_view(), filename@).0,
        id@ == insert_spec(old(store)@, beams.deep_view(), filename@).1,
{
    let n: usize = store.records.len();
    let id = uuid_string(n as u64);
    let record = PredictionRecord {
        id: id.clone(),
        detections: clone_beams(beams),
        image_ref: Some(filename.clone()),
        correction: None,
    };
    store.records.push(record);
    store.log.push(RepoCall::Insert);
    proof {
        assert(store@ =~= insert_spec(old(store)@, beams.deep_view(), filename@).0);
    }
    id
}

} // verus!
