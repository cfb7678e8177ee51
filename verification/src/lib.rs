//! Typed access layer for the Windows registry.
//!
//! The library models the registry locations used by a small catalog of
//! user-editable tweaks: it classifies native value type tags, encodes and
//! decodes typed values (32-bit integers and NUL-terminated UTF-16 strings),
//! maps native return codes to a layered error taxonomy, and tracks the
//! release of native key handles through an idempotent sentinel state.
//! The native system calls themselves are issued by the surrounding
//! application, which feeds their raw outcomes (return codes, type tags,
//! byte buffers) to the verified decision functions here.

pub mod codec;
pub mod command;
pub mod data_type;
pub mod def;
pub mod error;
pub mod key_handler;
pub mod reg_edit_options;
pub mod registry;
pub mod text;
pub mod value;
