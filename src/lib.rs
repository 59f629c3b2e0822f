//! Decoding and encoding of element style records: box-model lengths written
//! as `"42px"`, `"50%"` or `"auto"`, and a flat record of optional layout
//! properties read from a JSON object.

pub mod text;
pub mod length;
pub mod json;
pub mod style;
