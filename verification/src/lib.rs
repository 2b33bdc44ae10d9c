//! Code generation for conversions between an enum and the payload types of
//! its variants.
//!
//! A declaration is read into a schema (its name, its generic parameters, its
//! where-clause and its variants), the schema is validated, and the text of
//! the marker module and of three families of trait implementations is
//! rendered from templates and concatenated.

pub mod schema;
pub mod syntax;
pub mod parse_enum;
pub mod templates;
pub mod generate;
