//! A gateway library for a DWG-to-DXF conversion service: it manages the
//! request pipeline (multipart field selection, temporary-file lifecycle,
//! external-tool outcome classification, response assembly) as verified
//! decision logic over plain values.

pub mod error;
pub mod ingest;
pub mod invoke;
pub mod pipeline;
pub mod respond;
pub mod store;
pub mod text;

pub use text::has_dwg_extension;
