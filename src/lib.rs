//! Checks that every shared dependency of a workspace manifest turns off its
//! default features.

pub mod node;
pub mod toml_text;
pub mod validation;

pub use node::Node;
pub use validation::{
    classify, parse_document, validate_dependency, validate_document,
    validate_workspace_dependencies, ValidateError, Violation,
};
