//! Structured diagnostics for error taxonomies.
//!
//! An error taxonomy is declared once: a prefix and an application code type
//! for the whole taxonomy, and for each variant a short code, an application
//! code and an optional client message. From a validated declaration the
//! crate builds a dispatch table, and from the table it turns any error value,
//! given by its variant and its rendered message, into an [`ErrorInfo`]: a
//! record that can be shown to a client or written to a log, both renderings
//! carrying the same code and the same fingerprint of the full message.

pub mod app_code;
pub mod dispatch;
pub mod error_info;
pub mod fingerprint;
pub mod schema;
pub mod text;

pub use app_code::AppCode;
pub use dispatch::{Branch, Dispatch};
pub use error_info::{AppCodeError, ErrorInfo, ToErrorInfo};
pub use fingerprint::fingerprint;
pub use schema::{
    Attr, AttrDefect, SchemaError, Scope, Taxonomy, TaxonomyDecl, VariantDecl, VariantSpec,
};
