//! Attribute parsing and code generation for map fields of protobuf messages.

pub mod attr;
pub mod code_laws;
pub mod codegen;
pub mod error;
pub mod laws;
pub mod map;
pub mod scalar;
pub mod text;

