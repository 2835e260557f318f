//! A verified source-to-source pipeline for a scripting-language module:
//! an import-rewriting pass driven by a per-package policy, an
//! embedded-content pass that minifies the static text of recognized tagged
//! templates as markup or stylesheet, and the driver that composes the two.

pub mod ast;
pub mod diag;
pub mod imports;
pub mod laws;
pub mod pipeline;
pub mod sublang;
pub mod templates;
