//! Content-addressed derived-image cache and resize pipeline.
//!
//! Source images are identified by a fingerprint of their byte content.
//! For each source the pipeline derives two durable artifacts: a
//! bounded-size preview and a full-fidelity master.  The derived store
//! names artifact files deterministically from the fingerprint, so
//! presence checks are path lookups and nothing is ever recomputed for
//! the same bytes.  The import orchestrator drives a batch of source
//! files through fingerprinting, probing, resizing and encoding, and
//! reassembles per-file results in request order.
//!
//! All file, dialog and metadata-tag I/O belongs to the embedding
//! host: the library computes on bytes and values it is handed.  In
//! particular, resolution (DPI) is derived from tag bytes the host
//! reads out of a source's embedded metadata; a host without such a
//! reader supplies none and every import reports the default of 72.

pub mod codec;
pub mod dpi;
pub mod errors;
pub mod fingerprint;
pub mod info;
pub mod job;
pub mod pixel;
pub mod probe;
pub mod progress;
pub mod resize;
pub mod sizes;
pub mod store;
