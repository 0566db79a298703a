//! The blob archiver: idempotent, content-addressed storage of the original
//! image bytes.
//!
//! [`BlobStore`] is the in-memory object store the verified archiver runs
//! against; the real system keeps the objects in an S3-compatible bucket with
//! the same head/put semantics. The store logs every write in `writes`, so
//! tests can assert that duplicate archivals of the same content perform
//! exactly one underlying write; its `probes_fail` switch makes the store
//! unreachable, standing for the probe failures the real bucket can produce.

use vstd::prelude::*;
use vstd::slice::slice_to_vec;

verus! {

/// The blob store could not be used: the existence probe (or the write after
/// it) failed for a reason other than "not found".
#[derive(Clone, Copy, PartialEq, Eq, Structural, Debug)]
pub struct ArchiveError;

/// What one archival achieved.
#[derive(Clone, Copy, PartialEq, Eq, Structural, Debug)]
pub enum ArchiveOutcome {
    /// The key was absent; the bytes were written under it.
    Created,
    /// The key was already present; nothing was written.
    AlreadyArchived,
}

/// One archived object.
pub struct BlobObject {
    pub key: String,
    pub data: Vec<u8>,
}

/// Mathematical value of a [`BlobObject`].
#[verifier::ext_equal]
pub ghost struct ObjectModel {
    pub key: Seq<char>,
    pub data: Seq<u8>,
}

impl View for BlobObject {
    type V = ObjectModel;

    open spec fn view(&self) -> ObjectModel {
        ObjectModel { key: self.key@, data: self.data@ }
    }
}

impl DeepView for BlobObject {
    type V = ObjectModel;

    open spec fn deep_view(&self) -> ObjectModel {
        self.view()
    }
}

/// Content-addressed object storage, with a log of the writes performed.
pub struct BlobStore {
    pub objects: Vec<BlobObject>,
    pub writes: Vec<String>,
    pub probes_fail: bool,
}

/// Mathematical value of a [`BlobStore`].
#[verifier::ext_equal]
pub ghost struct BlobModel {
    pub objects: Seq<ObjectModel>,
    pub writes: Seq<Seq<char>>,
    pub probes_fail: bool,
}

impl View for BlobStore {
    type V = BlobModel;

    open spec fn view(&self) -> BlobModel {
        BlobModel {
            objects: self.objects.deep_view(),
            writes: self.writes.deep_view(),
            probes_fail: self.probes_fail,
        }
    }
}

/// Whether some object is stored under `key`.
pub open spec fn blob_has_key(objects: Seq<ObjectModel>, key: Seq<char>) -> bool {
    exists|i: int| 0 <= i < objects.len() && (#[trigger] objects[i]).key == key
}

/// Transition of one archival: nothing changes when the store is unreachable
/// or the key is already present; otherwise the bytes are written under the
/// key, and the write is logged.
pub open spec fn archive_spec(m: BlobModel, bytes: Seq<u8>, key: Seq<char>) -> (
    BlobModel,
    Result<ArchiveOutcome, ArchiveError>,
) {
    if m.probes_fail {
        (m, Err(ArchiveError))
    } else if blob_has_key(m.objects, key) {
        (m, Ok(ArchiveOutcome::AlreadyArchived))
    } else {
        (
            BlobModel {
                objects: m.objects.push(ObjectModel { key, data: bytes }),
                writes: m.writes.push(key),
                probes_fail: m.probes_fail,
            },
            Ok(ArchiveOutcome::Created),
        )
    }
}

impl BlobStore {
    /// An empty, reachable store.
    pub fn new() -> (r: Self)
        ensures
            r@.objects.len() == 0,
            r@.writes.len() == 0,
            !r@.probes_fail,
    {
        BlobStore { objects: Vec::new(), writes: Vec::new(), probes_fail: false }
    }

    /// An unreachable store: every probe fails.
    pub fn unreachable() -> (r: Self)
        ensures
            r@.objects.len() == 0,
            r@.writes.len() == 0,
            r@.probes_fail,
    {
        BlobStore { objects: Vec::new(), writes: Vec::new(), probes_fail: true }
    }
}

/// Archives `bytes` under the content-derived `key`: probes for the key and
/// writes only when it is absent, so that re-archival of identical content is
/// deduplicated. A probe failure is a hard failure and writes nothing.
pub fn archive(store: &mut BlobStore, bytes: &Vec<u8>, key: &String) -> (r: Result<
    ArchiveOutcome,
    ArchiveError,
>)
    ensures
        final(store)@ == archive_spec(old(store)@, bytes@, key@).0,
        r == archive_spec(old(store)@, bytes@, key@).1,
{
    if store.probes_fail {
        return Err(ArchiveError);
    }
    let ghost objects = store@.objects;
    let n: usize = store.objects.len();
    let mut i: usize = 0;
    while i < n
        invariant
            store@ == old(store)@,
            !store@.probes_fail,
            n == objects.len(),
            objects == store@.objects,
            i <= n,
            forall|j: int| 0 <= j < i ==> (#[trigger] objects[j]).key != key@,
        decreases n - i,
    {
        if store.objects[i].key.eq(key) {
            proof {
                assert(store.objects@[i as int].key@ == key@);
                assert(objects[i as int].key == key@);
                assert(blob_has_key(objects, key@));
            }
            return Ok(ArchiveOutcome::AlreadyArchived);
        }
        i = i + 1;
    }
    proof {
        assert(!blob_has_key(objects, key@));
    }
    store.objects.push(BlobObject { key: key.clone(), data: slice_to_vec(bytes.as_slice()) });
    store.writes.push(key.clone());
    proof {
        assert(store@ =~= archive_spec(old(store)@, bytes@, key@).0);
    }
    Ok(ArchiveOutcome::Created)
}

/// Archival is idempotent: a second archival of the same bytes under the same
/// key stores nothing new and performs no further write, so a pair of
/// identical archivals performs exactly one write when the key was absent and
/// none when it was already present.
pub proof fn lemma_archive_idempotent(m: BlobModel, bytes: Seq<u8>, key: Seq<char>)
    requires
        !m.probes_fail,
    ensures
        ({
            let once = archive_spec(m, bytes, key);
            let twice = archive_spec(once.0, bytes, key);
            &&& twice.0 == once.0
            &&& twice.1 == Ok::<ArchiveOutcome, ArchiveError>(ArchiveOutcome::AlreadyArchived)
            &&& once.0.writes.len() == m.writes.len() + (if blob_has_key(m.objects, key) {
                0int
            } else {
                1int
            })
        }),
{
    if !blob_has_key(m.objects, key) {
        let once = archive_spec(m, bytes, key);
        assert(once.0.objects[m.objects.len() as int].key == key);
        assert(blob_has_key(once.0.objects, key));
    }
}

} // verus!
