//! Reconstruction of a canonical, deduplicated view of trade orders
//! from intercepted HTTP-response events.
//!
//! Events arrive as JSON envelopes from capture sessions; each one is
//! classified by its route, filtered through a time-windowed
//! deduplication cache, parsed by the matching payload parser, and
//! folded into the order reconciliation store, which serves a
//! projected read-only view. The merge rules — additive payment
//! fields, overwrite-only status fields, idempotent re-submission —
//! are stated as contracts and proved in `laws`.
pub mod crypto;
pub mod dedup;
pub mod fields;
pub mod json;
pub mod laws;
pub mod parser_detail;
pub mod parser_list;
pub mod repo;
pub mod session;
pub mod signing;
pub mod status;
pub mod store;
pub mod strutil;
pub mod sync_plan;
