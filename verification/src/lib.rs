//! Raw-item lowering for an incremental name-resolution pipeline.
//!
//! A parsed source file is lowered into a compact, syntax-decoupled
//! description of its top-level items: module declarations and definitions,
//! imports, definitions, macro invocation sites and implementation blocks.
//! The description is deliberately shallow — no name resolution, no type
//! checking — so that it only changes when the file's item structure
//! changes, which makes it a good recomputation firewall for the passes
//! that consume it.
//!
//! The parser, the positional-identity service, the hygiene context and the
//! attribute parser are collaborators of this library, not part of it: the
//! input tree in [`syntax`] carries their answers as plain values.

pub mod arena;
pub mod attr;
pub mod collect;
pub mod laws;
pub mod path;
pub mod raw;
pub mod syntax;
pub mod text;
pub mod visibility;

pub use arena::Arena;
pub use collect::lower;
pub use raw::{
    DefData, DefKind, ImplData, ImportData, MacroData, ModuleData, RawItem, RawItemKind, RawItems,
    StructDefKind,
};
