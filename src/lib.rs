//! A typed configuration and value-marshalling layer for the AG Grid data
//! table.
//!
//! The library models the dynamic values of the JavaScript runtime
//! ([`value::JsValue`]), converts typed host values into them
//! ([`convert::ToJsValue`]), and holds the decision logic of the code
//! generators that build fluent setters, serializers and reverse conversions
//! for the grid's configuration types.

pub mod value;
pub mod convert;
pub mod casing;
pub mod serialize;
pub mod text;
pub mod shape;
pub mod derive;
pub mod types;
pub mod filter;
pub mod sort;
pub mod callbacks;
pub mod column;
pub mod gridoptions;
pub mod row;
