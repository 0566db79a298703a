//! The ingestion and correction workflows.
//!
//! Ingestion handles one prediction request: validate the upload, call the
//! inference client, persist the returned detections under a fresh
//! identifier, schedule the archival of the original bytes, and answer with
//! the detection list and the identifier. The archival is deliberately
//! decoupled: [`predict`] hands the scheduled [`ArchiveTask`] back instead of
//! performing it, so the response never waits for — and never reports — the
//! outcome of the archival; the caller runs the task after responding. The
//! record and the archived blob can therefore diverge when the archival later
//! fails; that gap is accepted, not hidden.
//!
//! Correction handles one correction request: parse the caller-supplied
//! identifier, look the record up, and replace its stored correction
//! wholesale. A malformed identifier is answered exactly like a missing one:
//! not found.

use vstd::prelude::*;
use vstd::slice::slice_to_vec;
use crate::content::ext_of;
use crate::content::image_ref;
use crate::content::image_ref_of;
use crate::content::is_image_media_type;
use crate::content::spec_accepts_upload;
use crate::ident::lemma_uuid_of_injective;
use crate::ident::parse_record_id;
use crate::ident::uuid_accepts;
use crate::ident::uuid_canonical;
use crate::ident::uuid_of;
use crate::inference::InferenceError;
use crate::inference::ScriptedInference;
use crate::inference::predict_spec;
use crate::models::BeamModel;
use crate::models::PredictionUpload;
use crate::models::RecordModel;
use crate::models::UploadModel;
use crate::repository::PredictionStore;
use crate::repository::StoreModel;
use crate::repository::add_prediction;
use crate::repository::apply_correction_spec;
use crate::repository::fetch_spec;
use crate::repository::id_index;
use crate::repository::insert_spec;
use crate::repository::lemma_id_index_same_ids;

verus! {

/// Why a prediction request was refused: the upload is not an image (a client
/// error, answered before any outbound call), or the inference service failed
/// (a server-side failure, answered before anything is persisted).
#[derive(Clone, Copy, PartialEq, Eq, Structural, Debug)]
pub enum PredictError {
    NotAnImage,
    Inference(InferenceError),
}

/// How a correction request was answered.
#[derive(Clone, Copy, PartialEq, Eq, Structural, Debug)]
pub enum CorrectOutcome {
    Applied,
    NotFound,
}

/// An archival scheduled by a successful ingestion: the original bytes and
/// the content-derived key to store them under.
pub struct ArchiveTask {
    pub bytes: Vec<u8>,
    pub key: String,
}

/// Mathematical value of an [`ArchiveTask`].
#[verifier::ext_equal]
pub ghost struct TaskModel {
    pub bytes: Seq<u8>,
    pub key: Seq<char>,
}

impl View for ArchiveTask {
    type V = TaskModel;

    open spec fn view(&self) -> TaskModel {
        TaskModel { bytes: self.bytes@, key: self.key@ }
    }
}

/// Mathematical value of a prediction response.
pub open spec fn response_model(r: Result<PredictionUpload, PredictError>) -> Result<
    UploadModel,
    PredictError,
> {
    match r {
        Ok(u) => Ok(u@),
        Err(e) => Err(e),
    }
}

/// Mathematical value of a scheduled archival.
pub open spec fn task_model(t: Option<ArchiveTask>) -> Option<TaskModel> {
    match t {
        Some(task) => Some(task@),
        None => None,
    }
}

/// Everything one ingestion attempt leaves behind: the remaining reply
/// script, the table, the response, and the scheduled archival, if any.
#[verifier::ext_equal]
pub ghost struct IngestModel {
    pub client: Seq<Result<Seq<BeamModel>, InferenceError>>,
    pub store: StoreModel,
    pub response: Result<UploadModel, PredictError>,
    pub task: Option<TaskModel>,
}

/// Transition of one ingestion attempt.
///
/// A non-image upload is refused before anything else happens. Otherwise one
/// inference reply is consumed: a failure is answered as such, with nothing
/// persisted and nothing scheduled; a detection list is persisted exactly as
/// returned, under a fresh identifier, the archival of the bytes under their
/// content-derived key is scheduled, and the response carries the list and
/// the identifier.
pub open spec fn ingest_spec(
    client: Seq<Result<Seq<BeamModel>, InferenceError>>,
    store: StoreModel,
    content_type: Option<Seq<char>>,
    file_name: Seq<char>,
    bytes: Seq<u8>,
) -> IngestModel {
    if !spec_accepts_upload(content_type) {
        IngestModel { client, store, response: Err(PredictError::NotAnImage), task: None }
    } else {
        let key = image_ref_of(bytes, file_name);
        let (client1, reply) = predict_spec(client);
        match reply {
            Err(e) => IngestModel {
                client: client1,
                store,
                response: Err(PredictError::Inference(e)),
                task: None,
            },
            Ok(beams) => {
                let (store1, id) = insert_spec(store, beams, key);
                IngestModel {
                    client: client1,
                    store: store1,
                    response: Ok(UploadModel { data: beams, uuid: id }),
                    task: Some(TaskModel { bytes, key }),
                }
            },
        }
    }
}

/// Handles one prediction request: Validate, Infer, Persist, schedule the
/// decoupled Archive, Respond.
///
/// The returned task is the scheduled archival; the caller runs it after
/// answering, and its outcome is never surfaced to this request. The file
/// name of an accepted upload must carry an extension, since the
/// content-derived key ends in one.
pub fn predict(
    ml_client: &mut ScriptedInference,
    store: &mut PredictionStore,
    content_type: &Option<String>,
    file_name: &String,
    bytes: &Vec<u8>,
) -> (r: (Result<PredictionUpload, PredictError>, Option<ArchiveTask>))
    requires
        old(store).wf(),
        spec_accepts_upload((*content_type).deep_view()) ==> ext_of(file_name@) is Some,
    ensures
        final(store).wf(),
        ({
            let m = ingest_spec(
                old(ml_client)@,
                old(store)@,
                (*content_type).deep_view(),
                file_name@,
                bytes@,
            );
            &&& final(ml_client)@ == m.client
            &&& final(store)@ == m.store
            &&& response_model(r.0) == m.response
            &&& task_model(r.1) == m.task
        }),
{
    // Validate: the declared media type must name an image.
    let accepted = match content_type {
        Some(ct) => is_image_media_type(ct.as_str()),
        None => false,
    };
    if !accepted {
        return (Err(PredictError::NotAnImage), None);
    }
    // The content-derived key: hash of the bytes, dot, file extension.
    let key = match image_ref(bytes, file_name.as_str()) {
        Some(k) => k,
        None => {
            proof {
                assert(false);
            }
            return (Err(PredictError::NotAnImage), None);
        },
    };
    // Infer.
    let beams = match ml_client.predict(bytes) {
        Ok(b) => b,
        Err(e) => {
            return (Err(PredictError::Inference(e)), None);
        },
    };
    // Persist.
    let id = add_prediction(store, &beams, &key);
    // Schedule the decoupled archival; Persist happens before this point.
    let task = ArchiveTask { bytes: slice_to_vec(bytes.as_slice()), key };
    // Respond.
    (Ok(PredictionUpload { data: beams, uuid: id }), Some(task))
}

/// Transition of one correction request: a caller-supplied identifier that
/// the parser refuses is answered not-found without reaching the repository;
/// an accepted one is canonicalized and looked up, and the stored correction
/// of the record it names, if any, is replaced wholesale.
pub open spec fn correct_spec(
    store: StoreModel,
    raw_id: Seq<char>,
    correction: Seq<BeamModel>,
) -> (StoreModel, CorrectOutcome) {
    if !uuid_accepts(raw_id) {
        (store, CorrectOutcome::NotFound)
    } else {
        let id = uuid_canonical(raw_id);
        let fetched = fetch_spec(store, id);
        match fetched.1 {
            None => (fetched.0, CorrectOutcome::NotFound),
            Some(_) => (apply_correction_spec(fetched.0, id, correction).0, CorrectOutcome::Applied),
        }
    }
}

/// Handles one correction request: the body carries the target record's
/// identifier and the corrected detection list that replaces any stored one.
pub fn correct(store: &mut PredictionStore, body: PredictionUpload) -> (r: CorrectOutcome)
    requires
        old(store).wf(),
    ensures
        final(store).wf(),
        (final(store)@, r) == correct_spec(old(store)@, body.uuid@, body.data.deep_view()),
{
    let PredictionUpload { data, uuid } = body;
    // Parse: a malformed identifier never reaches the repository.
    let id = match parse_record_id(uuid.as_str()) {
        Some(id) => id,
        None => {
            return CorrectOutcome::NotFound;
        },
    };
    // Look the record up.
    match store.lookup(&id) {
        None => CorrectOutcome::NotFound,
        Some(_) => {
            // Replace the stored correction wholesale.
            let applied = store.apply_correction(&id, data);
            proof {
                assert(applied is Ok);
            }
            CorrectOutcome::Applied
        },
    }
}

/// For every accepted upload whose inference reply is a detection list, the
/// response holds exactly that list — length and every field value unchanged
/// — together with the identifier the new record was persisted under.
pub proof fn theorem_response_is_inference_output(
    client: Seq<Result<Seq<BeamModel>, InferenceError>>,
    store: StoreModel,
    content_type: Option<Seq<char>>,
    file_name: Seq<char>,
    bytes: Seq<u8>,
    beams: Seq<BeamModel>,
)
    requires
        spec_accepts_upload(content_type),
        client.len() > 0,
        client.first() == Ok::<Seq<BeamModel>, InferenceError>(beams),
    ensures
        ({
            let m = ingest_spec(client, store, content_type, file_name, bytes);
            &&& m.response == Ok::<UploadModel, PredictError>(
                UploadModel { data: beams, uuid: uuid_of(store.records.len() as u64) },
            )
            &&& m.store.records == store.records.push(
                RecordModel {
                    id: uuid_of(store.records.len() as u64),
                    detections: beams,
                    image_ref: Some(image_ref_of(bytes, file_name)),
                    correction: None,
                },
            )
        }),
{
}

/// A non-image upload is refused as a client error before any outbound call:
/// the inference reply script and the table — its log included — are left
/// untouched, and no archival is scheduled.
pub proof fn theorem_rejected_upload_touches_nothing(
    client: Seq<Result<Seq<BeamModel>, InferenceError>>,
    store: StoreModel,
    content_type: Option<Seq<char>>,
    file_name: Seq<char>,
    bytes: Seq<u8>,
)
    requires
        !spec_accepts_upload(content_type),
    ensures
        ({
            let m = ingest_spec(client, store, content_type, file_name, bytes);
            &&& m.response == Err::<UploadModel, PredictError>(PredictError::NotAnImage)
            &&& m.client == client
            &&& m.store == store
            &&& m.task is None
        }),
{
}

/// A failed inference call is answered as a server-side failure with nothing
/// persisted and no archival scheduled: the table, its log included, is left
/// untouched.
pub proof fn theorem_failed_inference_persists_nothing(
    client: Seq<Result<Seq<BeamModel>, InferenceError>>,
    store: StoreModel,
    content_type: Option<Seq<char>>,
    file_name: Seq<char>,
    bytes: Seq<u8>,
    e: InferenceError,
)
    requires
        spec_accepts_upload(content_type),
        client.len() == 0 ==> e == InferenceError::Unreachable,
        client.len() > 0 ==> client.first() == Err::<Seq<BeamModel>, InferenceError>(e),
    ensures
        ({
            let m = ingest_spec(client, store, content_type, file_name, bytes);
            &&& m.response == Err::<UploadModel, PredictError>(PredictError::Inference(e))
            &&& m.store == store
            &&& m.task is None
        }),
{
}

/// Ingestion is not idempotent, archival is: two accepted ingestions of
/// byte-identical images persist two records under distinct identifiers,
/// while both schedule the archival of the same bytes under the same
/// content-derived key.
pub proof fn theorem_reingest_fresh_id_same_ref(
    client: Seq<Result<Seq<BeamModel>, InferenceError>>,
    store: StoreModel,
    content_type: Option<Seq<char>>,
    file_name: Seq<char>,
    bytes: Seq<u8>,
)
    requires
        spec_accepts_upload(content_type),
        client.len() >= 2,
        client[0] is Ok,
        client[1] is Ok,
        store.records.len() < 0xffff_ffff_ffff_ffff,
    ensures
        ({
            let m1 = ingest_spec(client, store, content_type, file_name, bytes);
            let m2 = ingest_spec(m1.client, m1.store, content_type, file_name, bytes);
            &&& m1.response is Ok
            &&& m2.response is Ok
            &&& m1.response->Ok_0.uuid != m2.response->Ok_0.uuid
            &&& m1.task is Some
            &&& m1.task == m2.task
        }),
{
    let m1 = ingest_spec(client, store, content_type, file_name, bytes);
    let m2 = ingest_spec(m1.client, m1.store, content_type, file_name, bytes);
    assert(m1.client[0] == client[1]);
    let n = store.records.len();
    assert(m1.response->Ok_0.uuid == uuid_of(n as u64));
    assert(m2.response->Ok_0.uuid == uuid_of((n + 1) as u64));
    if uuid_of(n as u64) == uuid_of((n + 1) as u64) {
        lemma_uuid_of_injective(n as u64, (n + 1) as u64);
        assert(false);
    }
}

/// Correcting an identifier that no record carries — malformed just like
/// missing — answers not-found and mutates no record; a malformed one is
/// answered before the repository is reached at all.
pub proof fn theorem_correct_missing_mutates_nothing(
    store: StoreModel,
    raw_id: Seq<char>,
    correction: Seq<BeamModel>,
)
    requires
        uuid_accepts(raw_id) ==> id_index(store.records, uuid_canonical(raw_id)) is None,
    ensures
        ({
            let (s1, outcome) = correct_spec(store, raw_id, correction);
            &&& outcome == CorrectOutcome::NotFound
            &&& s1.records == store.records
        }),
        !uuid_accepts(raw_id) ==> correct_spec(store, raw_id, correction).0 == store,
{
}

/// Correction is last-writer-wins: after two corrections of the same record,
/// only the second list is stored, the record is otherwise unchanged, and no
/// other record is touched.
pub proof fn theorem_correct_overwrites(
    store: StoreModel,
    raw_id: Seq<char>,
    first: Seq<BeamModel>,
    second: Seq<BeamModel>,
)
    requires
        uuid_accepts(raw_id),
        id_index(store.records, uuid_canonical(raw_id)) is Some,
    ensures
        ({
            let i = id_index(store.records, uuid_canonical(raw_id))->Some_0;
            let (s1, o1) = correct_spec(store, raw_id, first);
            let (s2, o2) = correct_spec(s1, raw_id, second);
            &&& o1 == CorrectOutcome::Applied
            &&& o2 == CorrectOutcome::Applied
            &&& s2.records.len() == store.records.len()
            &&& s2.records[i] == (RecordModel { correction: Some(second), ..store.records[i] })
            &&& forall|j: int|
                0 <= j < store.records.len() && j != i ==> s2.records[j] == store.records[j]
        }),
{
    let id = uuid_canonical(raw_id);
    let i = id_index(store.records, id)->Some_0;
    crate::repository::lemma_id_index_props(store.records, id);
    let (s1, o1) = correct_spec(store, raw_id, first);
    assert forall|j: int| 0 <= j < store.records.len() implies (#[trigger] s1.records[j]).id
        == store.records[j].id by {}
    lemma_id_index_same_ids(s1.records, store.records, id);
}

} // verus!
