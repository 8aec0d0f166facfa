//! A strongly typed model of the CSS value grammar.
//!
//! The crate models CSS data types (numeric, textual, color, image, shape and
//! position types), the property table that ties each property name to its
//! value grammar, and a two-way bridge between a flat token sequence and the
//! typed values.  Parsing tries the alternatives of a grammar in a fixed,
//! documented order with cursor backtracking; serialization is the inverse,
//! and re-parsing a serialized value yields an equal value.
//!
//! Numeric magnitudes are exact rationals (`Scalar`), so unit conversion
//! applies the specified fixed ratios exactly and converting back recovers
//! the original magnitude.

pub mod at_rules;
pub mod bridge;
pub mod data_types;
pub mod errors;
pub mod functions;
pub mod parser;
pub mod properties;
pub mod registry;
pub mod scalar;
pub mod selectors;
pub mod shorthand;
pub mod tokens;
pub mod units;
