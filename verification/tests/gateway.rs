//! End-to-end scenarios for the ingestion and correction workflows.

use mrbeam::archive::{archive, ArchiveOutcome, BlobStore};
use mrbeam::inference::{InferenceError, ScriptedInference};
use mrbeam::models::{Beam, PredictionUpload};
use mrbeam::repository::{PredictionStore, RepoCall};
use mrbeam::workflow::{correct, predict, CorrectOutcome, PredictError};

fn beam(xmin: u32, ymin: u32, xmax: u32, ymax: u32, conf: Option<u32>, class: &str) -> Beam {
    Beam { xmin, ymin, xmax, ymax, conf, class: class.to_string() }
}

fn assert_beam_eq(a: &Beam, b: &Beam) {
    assert_eq!(a.xmin, b.xmin);
    assert_eq!(a.ymin, b.ymin);
    assert_eq!(a.xmax, b.xmax);
    assert_eq!(a.ymax, b.ymax);
    assert_eq!(a.conf, b.conf);
    assert_eq!(a.class, b.class);
}

/// A stand-in for the uploaded 10x10 red square JPEG: the gateway treats the
/// bytes as opaque content, so only the declared media type and the file
/// name's extension matter to it.
fn red_square_jpeg() -> Vec<u8> {
    vec![0xFF, 0xD8, 0xFF, 0xE0, 0x0A, 0x0A, 0xFF, 0x00, 0x00, 0xFF, 0xD9]
}

#[test]
fn upload_red_square_jpeg_persists_and_responds() {
    let detection = beam(100_000, 100_000, 900_000, 900_000, Some(950_000), "beam");
    let mut client = ScriptedInference::new(vec![Ok(vec![detection])]);
    let mut store = PredictionStore::new();
    let bytes = red_square_jpeg();

    let (response, task) = predict(
        &mut client,
        &mut store,
        &Some("image/jpeg".to_string()),
        &"red_square.jpg".to_string(),
        &bytes,
    );

    let upload = response.expect("a valid upload with a scripted reply must succeed");
    assert_eq!(upload.data.len(), 1);
    assert_beam_eq(
        &upload.data[0],
        &beam(100_000, 100_000, 900_000, 900_000, Some(950_000), "beam"),
    );

    // A record under the returned identifier is now fetchable.
    let record = store
        .fetch_by_id(&upload.uuid)
        .expect("the fresh identifier must name a record");
    assert_eq!(record.id, upload.uuid);
    assert_eq!(record.detections.len(), 1);
    assert_beam_eq(&record.detections[0], &upload.data[0]);
    assert!(record.correction.is_none());

    // The scheduled archival carries the original bytes and the
    // content-derived key, which ends in the upload's extension.
    let task = task.expect("a successful ingestion schedules an archival");
    assert_eq!(task.bytes, bytes);
    assert_eq!(record.image_ref.as_deref(), Some(task.key.as_str()));
    assert_eq!(task.key.len(), 64 + ".jpg".len());
    assert!(task.key.ends_with(".jpg"));

    // Running the scheduled task archives the blob once.
    let mut blobs = BlobStore::new();
    assert_eq!(archive(&mut blobs, &task.bytes, &task.key), Ok(ArchiveOutcome::Created));
    assert_eq!(blobs.objects.len(), 1);
    assert_eq!(blobs.objects[0].key, task.key);
    assert_eq!(blobs.objects[0].data, bytes);
}

#[test]
fn inference_timeout_leaves_no_record() {
    let mut client = ScriptedInference::new(vec![Err(InferenceError::Unreachable)]);
    let mut store = PredictionStore::new();

    let (response, task) = predict(
        &mut client,
        &mut store,
        &Some("image/png".to_string()),
        &"upload.png".to_string(),
        &red_square_jpeg(),
    );

    assert_eq!(response.unwrap_err(), PredictError::Inference(InferenceError::Unreachable));
    assert!(task.is_none());
    assert_eq!(store.records.len(), 0);
    assert_eq!(store.log.len(), 0);
}

#[test]
fn non_image_upload_is_rejected_before_any_call() {
    let detection = beam(0, 0, 1, 1, None, "beam");
    let mut client = ScriptedInference::new(vec![Ok(vec![detection])]);
    let mut store = PredictionStore::new();

    let (response, task) = predict(
        &mut client,
        &mut store,
        &Some("text/plain".to_string()),
        &"notes.txt".to_string(),
        &vec![1, 2, 3],
    );

    assert_eq!(response.unwrap_err(), PredictError::NotAnImage);
    assert!(task.is_none());
    // No outbound inference call: the script is intact.
    assert_eq!(client.replies.len(), 1);
    // No repository call: the table and its log are untouched.
    assert_eq!(store.records.len(), 0);
    assert_eq!(store.log.len(), 0);
}

#[test]
fn absent_media_type_is_rejected() {
    let mut client = ScriptedInference::new(vec![]);
    let mut store = PredictionStore::new();

    let (response, task) = predict(
        &mut client,
        &mut store,
        &None,
        &"upload.jpg".to_string(),
        &red_square_jpeg(),
    );

    assert_eq!(response.unwrap_err(), PredictError::NotAnImage);
    assert!(task.is_none());
    assert_eq!(store.log.len(), 0);
}

#[test]
fn response_matches_inference_output_exactly() {
    let first = beam(10, 20, 30, 40, Some(500_000), "girder");
    let second = beam(0, 0, 1_000_000, 1_000_000, None, "plate");
    let mut client = ScriptedInference::new(vec![Ok(vec![first, second])]);
    let mut store = PredictionStore::new();

    let (response, _task) = predict(
        &mut client,
        &mut store,
        &Some("image/png".to_string()),
        &"two.png".to_string(),
        &vec![9, 9, 9],
    );

    let upload = response.unwrap();
    assert_eq!(upload.data.len(), 2);
    assert_beam_eq(&upload.data[0], &beam(10, 20, 30, 40, Some(500_000), "girder"));
    assert_beam_eq(&upload.data[1], &beam(0, 0, 1_000_000, 1_000_000, None, "plate"));
}

#[test]
fn upstream_error_statuses_are_reported() {
    let mut client = ScriptedInference::new(vec![
        Err(InferenceError::Status { code: 503 }),
        Err(InferenceError::Undecodable),
    ]);
    let mut store = PredictionStore::new();
    let ct = Some("image/png".to_string());
    let name = "b.png".to_string();

    let (r1, _) = predict(&mut client, &mut store, &ct, &name, &vec![1]);
    assert_eq!(r1.unwrap_err(), PredictError::Inference(InferenceError::Status { code: 503 }));
    let (r2, _) = predict(&mut client, &mut store, &ct, &name, &vec![1]);
    assert_eq!(r2.unwrap_err(), PredictError::Inference(InferenceError::Undecodable));
    // An exhausted script behaves as an unreachable service.
    let (r3, _) = predict(&mut client, &mut store, &ct, &name, &vec![1]);
    assert_eq!(r3.unwrap_err(), PredictError::Inference(InferenceError::Unreachable));
    assert_eq!(store.records.len(), 0);
}

#[test]
fn reingesting_identical_bytes_makes_fresh_record_same_image_ref() {
    let detection = beam(1, 2, 3, 4, None, "beam");
    let mut client = ScriptedInference::new(vec![
        Ok(vec![detection.clone()]),
        Ok(vec![detection]),
    ]);
    let mut store = PredictionStore::new();
    let bytes = red_square_jpeg();
    let ct = Some("image/jpeg".to_string());
    let name = "same.jpg".to_string();

    let (r1, t1) = predict(&mut client, &mut store, &ct, &name, &bytes);
    let (r2, t2) = predict(&mut client, &mut store, &ct, &name, &bytes);

    let u1 = r1.unwrap();
    let u2 = r2.unwrap();
    // Two distinct records...
    assert_ne!(u1.uuid, u2.uuid);
    assert_eq!(store.records.len(), 2);
    // ...but the same content-derived image reference.
    assert_eq!(t1.unwrap().key, t2.unwrap().key);
}

#[test]
fn correct_with_malformed_uuid_is_not_found_without_repository_call() {
    let mut client = ScriptedInference::new(vec![Ok(vec![beam(1, 1, 2, 2, None, "beam")])]);
    let mut store = PredictionStore::new();
    let (response, _task) = predict(
        &mut client,
        &mut store,
        &Some("image/jpeg".to_string()),
        &"a.jpg".to_string(),
        &red_square_jpeg(),
    );
    response.unwrap();
    let log_before = store.log.len();

    let outcome = correct(
        &mut store,
        PredictionUpload { data: vec![beam(5, 5, 6, 6, None, "beam")], uuid: "not-a-uuid".to_string() },
    );

    assert_eq!(outcome, CorrectOutcome::NotFound);
    // No repository call beyond the failed parse: the log is unchanged.
    assert_eq!(store.log.len(), log_before);
    assert!(store.records[0].correction.is_none());
}

#[test]
fn correct_with_unknown_uuid_is_not_found_without_mutation() {
    let mut store = PredictionStore::new();
    let log_before = store.log.len();

    let outcome = correct(
        &mut store,
        PredictionUpload {
            data: vec![beam(1, 1, 2, 2, None, "beam")],
            uuid: "123e4567-e89b-12d3-a456-426614174000".to_string(),
        },
    );

    assert_eq!(outcome, CorrectOutcome::NotFound);
    assert_eq!(store.records.len(), 0);
    // The repository was reached exactly once, for the lookup.
    assert_eq!(store.log.len(), log_before + 1);
    assert_eq!(store.log[log_before], RepoCall::Fetch);
}

#[test]
fn correct_twice_keeps_only_second_list() {
    let mut client = ScriptedInference::new(vec![Ok(vec![beam(1, 1, 2, 2, None, "beam")])]);
    let mut store = PredictionStore::new();
    let (response, _task) = predict(
        &mut client,
        &mut store,
        &Some("image/jpeg".to_string()),
        &"a.jpg".to_string(),
        &red_square_jpeg(),
    );
    let uuid = response.unwrap().uuid;

    let o1 = correct(
        &mut store,
        PredictionUpload { data: vec![beam(10, 10, 20, 20, Some(1), "first")], uuid: uuid.clone() },
    );
    let o2 = correct(
        &mut store,
        PredictionUpload {
            data: vec![beam(30, 30, 40, 40, None, "second"), beam(0, 0, 5, 5, None, "second")],
            uuid: uuid.clone(),
        },
    );

    assert_eq!(o1, CorrectOutcome::Applied);
    assert_eq!(o2, CorrectOutcome::Applied);
    let record = store.fetch_by_id(&uuid).unwrap();
    let stored = record.correction.expect("the correction must be stored");
    assert_eq!(stored.len(), 2);
    assert_beam_eq(&stored[0], &beam(30, 30, 40, 40, None, "second"));
    assert_beam_eq(&stored[1], &beam(0, 0, 5, 5, None, "second"));
    // The original detections are untouched.
    assert_eq!(record.detections.len(), 1);
    assert_beam_eq(&record.detections[0], &beam(1, 1, 2, 2, None, "beam"));
}

#[test]
fn correct_accepts_non_canonical_uuid_forms() {
    let mut client = ScriptedInference::new(vec![Ok(vec![beam(1, 1, 2, 2, None, "beam")])]);
    let mut store = PredictionStore::new();
    let (response, _task) = predict(
        &mut client,
        &mut store,
        &Some("image/jpeg".to_string()),
        &"a.jpg".to_string(),
        &red_square_jpeg(),
    );
    let uuid = response.unwrap().uuid;
    // The canonical identifier, written in a braced, partly upper-case form.
    let variant = format!("{{{}}}", uuid.to_uppercase());

    let outcome = correct(
        &mut store,
        PredictionUpload { data: vec![beam(7, 7, 8, 8, None, "fixed")], uuid: variant },
    );

    assert_eq!(outcome, CorrectOutcome::Applied);
    let record = store.fetch_by_id(&uuid).unwrap();
    assert!(record.correction.is_some());
}

#[test]
fn empty_detection_list_is_persisted_as_such() {
    let mut client = ScriptedInference::new(vec![Ok(vec![])]);
    let mut store = PredictionStore::new();

    let (response, task) = predict(
        &mut client,
        &mut store,
        &Some("image/gif".to_string()),
        &"empty.gif".to_string(),
        &vec![42],
    );

    let upload = response.unwrap();
    assert!(upload.data.is_empty());
    assert!(task.is_some());
    let record = store.fetch_by_id(&upload.uuid).unwrap();
    assert!(record.detections.is_empty());
}
