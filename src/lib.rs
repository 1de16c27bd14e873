//! Generates compiled modules with out-of-bounds references, together with the
//! exact diagnostics that a bounds checker must report for them.
pub mod bounds;
pub mod context;
pub mod file_format;
pub mod index_kind;
pub mod model;
pub mod pick;

pub use bounds::{valid_pointer_srcs, OutOfBoundsMutation, PointerKind};
pub use context::ApplyOutOfBoundsContext;
pub use file_format::{CompiledModule, VMStaticViolation, VerificationError};
pub use index_kind::{IndexKind, SignatureTokenKind};
pub use model::FunctionSignatureTokenIndex;
pub use pick::pick_slice_idxs;
