//! Compiler from contract interface schemas to native record types.
//!
//! A schema lists typed functions over a closed vocabulary of primitive and
//! composite value kinds.  The compiler expands every composite node into
//! record definitions, shares one record between structurally identical
//! shapes, and derives for each record a positional codec between native
//! instances and tagged wire values.

pub mod assembler;
pub mod catalog;
pub mod codec;
pub mod codec_deriver;
pub mod compiler;
pub mod compiler_laws;
pub mod module_gen;
pub mod naming;
pub mod native;
pub mod origin;
pub mod quote_traits;
pub mod render;
pub mod schema;
pub mod sequence;
pub mod shape;
pub mod struct_gen;
pub mod text;
pub mod value;
