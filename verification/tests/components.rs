//! Unit tests for the gateway's components: content-addressed keys, upload
//! validation, identifiers, the record store and the blob archiver.

use mrbeam::archive::{archive, ArchiveError, ArchiveOutcome, BlobStore};
use mrbeam::content::{file_extension, image_ref, is_image_media_type};
use mrbeam::ident::uuid_string;
use mrbeam::models::{Beam, COORD_SCALE};
use mrbeam::repository::{add_prediction, PredictionStore, RepoCall};

fn beam(xmin: u32, ymin: u32, xmax: u32, ymax: u32, conf: Option<u32>, class: &str) -> Beam {
    Beam { xmin, ymin, xmax, ymax, conf, class: class.to_string() }
}

#[test]
fn media_type_must_start_with_image_indicator() {
    assert!(is_image_media_type("image/png"));
    assert!(is_image_media_type("image/jpeg"));
    assert!(is_image_media_type("image/"));
    assert!(!is_image_media_type("imag"));
    assert!(!is_image_media_type("text/plain"));
    assert!(!is_image_media_type("application/image"));
    assert!(!is_image_media_type(""));
}

#[test]
fn file_extension_follows_the_last_dot() {
    assert_eq!(file_extension("photo.jpg").as_deref(), Some("jpg"));
    assert_eq!(file_extension("archive.tar.gz").as_deref(), Some("gz"));
    assert_eq!(file_extension("noext"), None);
    assert_eq!(file_extension(".gitignore"), None);
    assert_eq!(file_extension(""), None);
    assert_eq!(file_extension("trailing.").as_deref(), Some(""));
}

#[test]
fn image_ref_is_digest_dot_extension() {
    // The SHA-256 of "hello", hex-encoded, is well known.
    let key = image_ref(&b"hello".to_vec(), "photo.jpg");
    assert_eq!(
        key.as_deref(),
        Some("2cf24dba5fb0a30e26e83b2ac5b9e29e1b161e5c1fa7425e73043362938b9824.jpg"),
    );
    // Without an extension there is no key.
    assert_eq!(image_ref(&b"hello".to_vec(), "photo"), None);
}

#[test]
fn identifiers_encode_the_record_position() {
    assert_eq!(uuid_string(0), "00000000-0000-0000-0000-000000000000");
    assert_eq!(uuid_string(1), "00000000-0000-0000-0000-000000000001");
    assert_eq!(uuid_string(26), "00000000-0000-0000-0000-00000000001a");
    assert_eq!(uuid_string(u64::MAX), "00000000-0000-0000-ffff-ffffffffffff");
}

#[test]
fn insertions_return_successive_fresh_identifiers() {
    let mut store = PredictionStore::new();
    let beams = vec![beam(0, 0, COORD_SCALE, COORD_SCALE, Some(COORD_SCALE), "beam")];
    let key = "abc.png".to_string();
    let id0 = add_prediction(&mut store, &beams, &key);
    let id1 = add_prediction(&mut store, &beams, &key);
    assert_ne!(id0, id1);
    assert_eq!(store.records.len(), 2);
    assert_eq!(store.records[0].id, id0);
    assert_eq!(store.records[1].id, id1);
    assert_eq!(store.records[0].image_ref.as_deref(), Some("abc.png"));
    assert_eq!(store.log, vec![RepoCall::Insert, RepoCall::Insert]);
}

#[test]
fn fetch_by_id_finds_only_present_records() {
    let mut store = PredictionStore::new();
    let id = add_prediction(&mut store, &vec![], &"k.png".to_string());
    assert!(store.fetch_by_id(&id).is_some());
    assert!(store.fetch_by_id(&"00000000-0000-0000-0000-000000000009".to_string()).is_none());
    assert_eq!(store.log, vec![RepoCall::Insert, RepoCall::Fetch, RepoCall::Fetch]);
}

#[test]
fn apply_correction_on_missing_record_is_an_error() {
    let mut store = PredictionStore::new();
    let missing = "00000000-0000-0000-0000-000000000007".to_string();
    let result = store.apply_correction(&missing, vec![beam(1, 1, 2, 2, None, "x")]);
    assert!(result.is_err());
    assert_eq!(store.records.len(), 0);
}

#[test]
fn archiving_twice_writes_once() {
    let mut store = BlobStore::new();
    let bytes = vec![1u8, 2, 3, 4];
    let key = "0a0b.png".to_string();

    assert_eq!(archive(&mut store, &bytes, &key), Ok(ArchiveOutcome::Created));
    assert_eq!(archive(&mut store, &bytes, &key), Ok(ArchiveOutcome::AlreadyArchived));

    // Exactly one underlying write; the second call observed "already
    // exists" and wrote nothing.
    assert_eq!(store.writes.len(), 1);
    assert_eq!(store.writes[0], key);
    assert_eq!(store.objects.len(), 1);
    assert_eq!(store.objects[0].data, bytes);
}

#[test]
fn distinct_keys_are_archived_separately() {
    let mut store = BlobStore::new();
    archive(&mut store, &vec![1], &"one.png".to_string()).unwrap();
    archive(&mut store, &vec![2], &"two.png".to_string()).unwrap();
    assert_eq!(store.writes.len(), 2);
    assert_eq!(store.objects.len(), 2);
}

#[test]
fn probe_failure_is_hard_and_writes_nothing() {
    let mut store = BlobStore::unreachable();
    let result = archive(&mut store, &vec![1, 2], &"k.png".to_string());
    assert_eq!(result, Err(ArchiveError));
    assert_eq!(store.writes.len(), 0);
    assert_eq!(store.objects.len(), 0);
}

#[test]
fn beam_well_formedness_checks_corners_and_confidence() {
    assert!(beam(0, 0, COORD_SCALE, COORD_SCALE, Some(COORD_SCALE), "beam").well_formed());
    assert!(beam(100, 200, 100, 200, None, "point").well_formed());
    // Upper-left below or right of lower-right.
    assert!(!beam(300, 0, 200, 100, None, "beam").well_formed());
    assert!(!beam(0, 300, 100, 200, None, "beam").well_formed());
    // Out-of-range values.
    assert!(!beam(0, 0, COORD_SCALE + 1, 10, None, "beam").well_formed());
    assert!(!beam(0, 0, 10, 10, Some(COORD_SCALE + 1), "beam").well_formed());
}
