//! Headless inspection, validation and conversion of 2D CAD drawings:
//! the vocabulary, the document model and the rules that sit between a
//! CAD engine and whatever front end drives it.

pub mod codes;
pub mod info_report;
pub mod model;
pub mod paint;
pub mod raw;
pub mod report;
pub mod session;
pub mod session_laws;
pub mod text;
pub mod validation_report;
