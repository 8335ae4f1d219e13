//! Verified core of an iOS file-dialog backend: the byte-buffer result
//! channel that a document-picker delegate fills, the conversions from
//! that buffer to strings and paths, and the decisions made on it. The
//! unverifiable UI-framework calls around this core live outside the
//! library and hand it plain values.
pub mod delegate;
pub mod error;
pub mod file_dialog;
