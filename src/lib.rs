//! Manifest-driven, concurrency-limited mirroring of remote files.
//!
//! The library holds the decisions of a run: where the manifest comes from,
//! how it is read, where each file is fetched from and written to, what each
//! fetch concludes, and how many fetches may be in flight at once. The caller
//! performs the network and filesystem work and reports back.

pub mod batch;
pub mod gate;
pub mod json;
pub mod manifest;
pub mod plan;
pub mod source;
pub mod worker;

pub use batch::{Batch, BatchStep, Slot};
pub use gate::Gate;
pub use manifest::{
    manifest_from_fields, parse_manifest, resolve_manifest, strip_quotes_of, Manifest, ManifestError,
};
pub use plan::{plan, FetchPlan};
pub use source::{is_local_source, manifest_location, normalize_base_url, ManifestLocation};
pub use worker::{
    is_success_status, on_response, on_stored, start, FetchFailure, FetchOutcome, Response,
    StoreResult, WorkerStep,
};
