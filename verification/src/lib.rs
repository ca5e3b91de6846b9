//! Normalization of loosely-typed bibliography records into strict,
//! display-ready records.
//!
//! The core takes a raw entry — fields may be missing, multi-valued or
//! vendor-encoded — and produces a uniformly shaped record suitable for
//! rendering and serialization. Field-level transforms (text-chunk
//! flattening, person-name formatting, date normalization, vendor
//! file-field decoding) feed a per-entry normalizer, and a collection
//! builder applies it across a whole database, dropping entries whose
//! required fields cannot be extracted.

pub mod date;
pub mod entry;
pub mod jabref;
pub mod text;
