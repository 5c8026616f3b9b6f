//! Resolution of a vertex record's fields into a GPU vertex-buffer layout:
//! a wire format, a byte offset and a shader slot for each field, and the
//! record's stride.
pub mod annotations;
pub mod format;
pub mod layout;
pub mod names;

pub use annotations::Annotation;
pub use format::{ElementKind, Family, Format};
pub use layout::{
    FieldSpec, LayoutError, ResolvedAttribute, ResolvedLayout, StepMode, resolve_field,
    vertex_layout,
};
pub use names::{same_text, step_mode_from_selection};
