//! The adapters through which a caller on the far side of the boundary
//! builds schemas and fields and asks for encodings.

pub mod c_api;
