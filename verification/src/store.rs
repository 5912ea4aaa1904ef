//! The content-addressed derived store.
//!
//! The store is an append-only directory tree holding one preview and
//! one master artifact per fingerprint, at canonical paths derived
//! from the fingerprint alone: `{root}/lowres/{fingerprint}.png` and
//! `{root}/highres/{fingerprint}.tiff`.  Because naming is
//! deterministic, presence is a path lookup and no separate index
//! exists — the filesystem is the source of truth.
//!
//! Writes follow a check-then-create discipline, modelled here by
//! [`spec_store_write`]: a write lands only on an absent path, so an
//! existing artifact's bytes are never touched.  The caller performing
//! the actual I/O must write to a temporary path (see
//! [`DerivedStore::temp_path_for`]) and atomically rename it into the
//! canonical path, so a concurrent reader sees either nothing or a
//! complete file, never a partial one.

use vstd::prelude::*;
use vstd::string::StringExecFns;

verus! {

/// The two derived artifacts kept per fingerprint.
#[derive(Clone, Copy, Debug, PartialEq, Eq, Structural)]
pub enum ArtifactKind {
    /// The bounded-size preview, for fast display.
    Preview,
    /// The full-fidelity master, retained long-term.
    Master,
}

/// The directory component an artifact kind lives under.
pub open spec fn spec_kind_dir(kind: ArtifactKind) -> Seq<char> {
    match kind {
        ArtifactKind::Preview => "/lowres/"@,
        ArtifactKind::Master => "/highres/"@,
    }
}

/// The file extension of an artifact kind.
pub open spec fn spec_kind_ext(kind: ArtifactKind) -> Seq<char> {
    match kind {
        ArtifactKind::Preview => ".png"@,
        ArtifactKind::Master => ".tiff"@,
    }
}

/// The canonical path of an artifact: root, kind directory,
/// fingerprint, kind extension.
pub open spec fn spec_artifact_path(root: Seq<char>, fingerprint: Seq<char>, kind: ArtifactKind) -> Seq<char> {
    root + spec_kind_dir(kind) + fingerprint + spec_kind_ext(kind)
}

/// One write into the append-only store: bytes land only on an absent
/// path; a present path keeps its bytes.
pub open spec fn spec_store_write(
    store: Map<Seq<char>, Seq<u8>>,
    path: Seq<char>,
    data: Seq<u8>,
) -> Map<Seq<char>, Seq<u8>> {
    if store.contains_key(path) {
        store
    } else {
        store.insert(path, data)
    }
}

/// Idempotence: a write to an existing path leaves the store — and in
/// particular that path's bytes — unchanged.
pub proof fn lemma_store_write_idempotent(
    store: Map<Seq<char>, Seq<u8>>,
    path: Seq<char>,
    data: Seq<u8>,
)
    requires
        store.contains_key(path),
    ensures
        spec_store_write(store, path, data) == store,
{
}

/// A second write to the same path is a no-op, whatever bytes it
/// carries: the first write's bytes remain.
pub proof fn lemma_store_rewrite_keeps_bytes(
    store: Map<Seq<char>, Seq<u8>>,
    path: Seq<char>,
    first: Seq<u8>,
    second: Seq<u8>,
)
    ensures
        spec_store_write(spec_store_write(store, path, first), path, second) == spec_store_write(
            store,
            path,
            first,
        ),
        spec_store_write(spec_store_write(store, path, first), path, second)[path] == if store
            .contains_key(path) {
            store[path]
        } else {
            first
        },
{
    let once = spec_store_write(store, path, first);
    assert(once.contains_key(path));
}

/// The derived store: a cache root under which the two artifact
/// directories live.  The root is configuration, set once before the
/// first job and immutable thereafter.
pub struct DerivedStore {
    root: String,
}

impl DerivedStore {
    /// The configured cache root.
    pub closed spec fn spec_root(self) -> Seq<char> {
        self.root@
    }

    /// A store rooted at the given directory, whose `lowres` and
    /// `highres` subdirectories the caller must have created.
    pub fn new(root: String) -> (r: DerivedStore)
        ensures
            r.spec_root() == root@,
    {
        DerivedStore { root }
    }

    /// The canonical path of an artifact.
    pub fn path_for(&self, fingerprint: &str, kind: ArtifactKind) -> (r: String)
        ensures
            r@ == spec_artifact_path(self.spec_root(), fingerprint@, kind),
    {
        let mut path = self.root.clone();
        match kind {
            ArtifactKind::Preview => path.append("/lowres/"),
            ArtifactKind::Master => path.append("/highres/"),
        }
        path.append(fingerprint);
        match kind {
            ArtifactKind::Preview => path.append(".png"),
            ArtifactKind::Master => path.append(".tiff"),
        }
        path
    }

    /// The temporary path a new artifact's bytes are written to before
    /// being atomically renamed into the canonical path.
    pub fn temp_path_for(&self, fingerprint: &str, kind: ArtifactKind) -> (r: String)
        ensures
            r@ == spec_artifact_path(self.spec_root(), fingerprint@, kind) + ".tmp"@,
    {
        let mut path = self.path_for(fingerprint, kind);
        path.append(".tmp");
        path
    }
}

/// The two artifact directories under a cache root, in the order
/// preview directory, master directory.  Creating them on disk is the
/// caller's I/O.
pub fn prepare_directories(root: &str) -> (r: (String, String))
    ensures
        r.0@ == root@ + "/lowres"@,
        r.1@ == root@ + "/highres"@,
{
    let mut lowres = root.to_owned();
    lowres.append("/lowres");
    let mut highres = root.to_owned();
    highres.append("/highres");
    (lowres, highres)
}

} // verus!
