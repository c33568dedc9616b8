//! Parameter values.
//!
//! Parameter *definitions* carry TOML values (their defaults, written in
//! `job.toml` and `workflow.toml`), while parameter *values* are stored as JSON
//! (`params.json`, `global_params.json`). Both are modelled here as plain
//! data. A floating-point number is held as the bit pattern of its IEEE-754
//! double, so that it crosses into and out of this library unchanged.

use vstd::prelude::*;

verus! {

/// A TOML value.
#[derive(Debug, PartialEq)]
pub enum TomlValue {
    String(String),
    Integer(i64),
    /// The bit pattern of a double.
    Float(u64),
    Boolean(bool),
    /// An offset date-time, local date-time, local date or local time, in its
    /// TOML text form.
    Datetime(String),
    Array(Vec<TomlValue>),
    Table(Vec<(String, TomlValue)>),
}

/// A JSON number, as JSON parsers hold it: a non-negative integer, a negative
/// integer, or a finite double.
#[derive(Debug, Clone, Copy, PartialEq, Eq)]
pub enum JsonNumber {
    PosInt(u64),
    NegInt(i64),
    /// The bit pattern of a finite double.
    Float(u64),
}

/// A JSON value.
#[derive(Debug, PartialEq)]
pub enum JsonValue {
    Null,
    Bool(bool),
    Number(JsonNumber),
    String(String),
    Array(Vec<JsonValue>),
    Object(Vec<(String, JsonValue)>),
}

} // verus!
