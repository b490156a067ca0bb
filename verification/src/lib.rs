//! Text-generation interception core.
//!
//! This library holds the decision logic of a runtime hook around a foreign
//! text-layout routine: given the tables of a localization snapshot and the
//! string a caller is about to render, it decides whether to substitute a
//! pre-translated string, evaluate the string as a template with inline
//! layout directives, or pass it through unchanged.  Template filter
//! directives (`nb`, `anchor`, `scale`, `ho`, `vo`) mutate a layout-settings
//! value in place; a passive variant of the same filter set recognizes the
//! directives without mutating anything, for call sites that have no
//! settings to offer.
//!
//! Address resolution for the foreign routine, the template tokenizer, the
//! localization storage and the string encoding are external collaborators:
//! this crate only consumes their results as plain values.

pub mod bridge;
pub mod filters;
pub mod handler;
pub mod settings;
pub mod template;

pub use bridge::init;
pub use filters::IgnoreTGFiltersContext;
pub use filters::TemplateContext;
pub use settings::TextGenerationSettings;
