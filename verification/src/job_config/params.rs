//! Parameter storage: values are kept as JSON, definitions carry TOML
//! defaults, and these conversions move values between the two.

use vstd::prelude::*;
use vstd::string::*;

use crate::job_config::config::json_same;
use crate::values::{JsonNumber, JsonValue, TomlValue};

verus! {

/// Parameters of one job (`params.json`), in file order.
pub type JobParams = Vec<(String, JsonValue)>;

/// Global parameters of a workflow (`global_params.json`), in file order.
pub type WorkflowParams = Vec<(String, JsonValue)>;

/// The bits of the double nearest to `x`, for `x` at or above 2^63: the
/// significand keeps the top 53 bits, rounded half to even, and a carry out of
/// them moves the value to 2^64.
pub open spec fn spec_large_u64_double_bits(x: u64) -> u64 {
    let q = x / 2048;
    let rem = x % 2048;
    let rounded: int = if rem > 1024 || (rem == 1024 && q % 2 == 1) { q + 1 } else { q as int };
    if rounded == 0x20_0000_0000_0000 {
        (1087u64 << 52u64) as u64
    } else {
        ((1086u64 << 52u64) | ((rounded - 0x10_0000_0000_0000) as u64)) as u64
    }
}

/// Rounds an integer at or above 2^63 to the nearest double and returns its
/// bits.
pub fn large_u64_double_bits(x: u64) -> (r: u64)
    requires
        x > i64::MAX,
    ensures
        r == spec_large_u64_double_bits(x),
{
    let q = x / 2048;
    let rem = x % 2048;
    assert(q >= 0x10_0000_0000_0000 && q < 0x20_0000_0000_0000) by (bit_vector)
        requires
            x > 0x7fff_ffff_ffff_ffffu64,
            q == x / 2048,
    ;
    let rounded: u64 = if rem > 1024 || (rem == 1024 && q % 2 == 1) { q + 1 } else { q };
    if rounded == 0x20_0000_0000_0000 {
        1087u64 << 52u64
    } else {
        (1086u64 << 52u64) | (rounded - 0x10_0000_0000_0000)
    }
}

/// A double is finite unless its eleven exponent bits are all set.
pub open spec fn spec_double_bits_finite(bits: u64) -> bool {
    (bits >> 52u64) & 0x7ffu64 != 0x7ffu64
}

/// Whether the double with these bits is finite (neither infinite nor NaN).
pub fn double_bits_finite(bits: u64) -> (r: bool)
    ensures
        r == spec_double_bits_finite(bits),
{
    (bits >> 52u64) & 0x7ffu64 != 0x7ffu64
}

/// The integer a JSON number holds, when it fits in an `i64`.
pub open spec fn spec_json_number_as_i64(n: JsonNumber) -> Option<i64> {
    match n {
        JsonNumber::PosInt(u) => if u <= i64::MAX { Some(u as i64) } else { None },
        JsonNumber::NegInt(i) => Some(i),
        JsonNumber::Float(_) => None,
    }
}

/// `t` is what the JSON value `j` becomes as a TOML value: `null` becomes the
/// string `"null"`, a number becomes an integer when it fits in an `i64` and a
/// float otherwise, and arrays and objects are converted element by element.
pub open spec fn json_to_toml_rel(j: JsonValue, t: TomlValue) -> bool
    decreases j,
{
    match j {
        JsonValue::Null => t matches TomlValue::String(s) && s@ == "null"@,
        JsonValue::Bool(b) => t == TomlValue::Boolean(b),
        JsonValue::Number(n) => match n {
            JsonNumber::PosInt(u) => if u <= i64::MAX {
                t == TomlValue::Integer(u as i64)
            } else {
                t == TomlValue::Float(spec_large_u64_double_bits(u))
            },
            JsonNumber::NegInt(i) => t == TomlValue::Integer(i),
            JsonNumber::Float(bits) => t == TomlValue::Float(bits),
        },
        JsonValue::String(s) => t matches TomlValue::String(s2) && s2@ == s@,
        JsonValue::Array(a) => t matches TomlValue::Array(b) && b@.len() == a@.len() && forall|i: int|
            #![trigger b@[i]]
            0 <= i < a@.len() ==> json_to_toml_rel(a@[i], b@[i]),
        JsonValue::Object(o) => t matches TomlValue::Table(b) && b@.len() == o@.len() && forall|i: int|
            #![trigger b@[i]]
            0 <= i < o@.len() ==> b@[i].0@ == o@[i].0@ && json_to_toml_rel(o@[i].1, b@[i].1),
    }
}

/// Converts a JSON value to a TOML value.
/// Used when validating JSON params against TOML-based definitions.
pub fn json_to_toml(value: &JsonValue) -> (r: TomlValue)
    ensures
        json_to_toml_rel(*value, r),
    decreases value,
{
    match value {
        JsonValue::Null => {
            TomlValue::String(String::from_str("null"))
        },
        JsonValue::Bool(b) => TomlValue::Boolean(*b),
        JsonValue::Number(n) => match n {
            JsonNumber::PosInt(u) => if *u <= 9223372036854775807u64 {
                TomlValue::Integer(*u as i64)
            } else {
                TomlValue::Float(large_u64_double_bits(*u))
            },
            JsonNumber::NegInt(i) => TomlValue::Integer(*i),
            JsonNumber::Float(bits) => TomlValue::Float(*bits),
        },
        JsonValue::String(s) => TomlValue::String(s.clone()),
        JsonValue::Array(a) => {
            let mut out: Vec<TomlValue> = Vec::new();
            assert forall|k: int| 0 <= k < a@.len() implies decreases_to!(*value => a@[k]) by {
                assert(decreases_to!(*value => *a));
                assert(decreases_to!(*a => a@));
                assert(decreases_to!(a@ => a@[k]));
            }
            for i in 0..a.len()
                invariant
                    forall|k: int| 0 <= k < a@.len() ==> decreases_to!(*value => a@[k]),
                    out@.len() == i,
                    forall|k: int| 0 <= k < i ==> json_to_toml_rel(a@[k], #[trigger] out@[k]),
            {
                out.push(json_to_toml(&a[i]));
            }
            TomlValue::Array(out)
        },
        JsonValue::Object(o) => {
            let mut out: Vec<(String, TomlValue)> = Vec::new();
            assert forall|k: int| 0 <= k < o@.len() implies decreases_to!(*value => o@[k].1) by {
                assert(decreases_to!(*value => *o));
                assert(decreases_to!(*o => o@));
                assert(decreases_to!(o@ => o@[k]));
                assert(decreases_to!(o@[k] => o@[k].1));
            }
            for i in 0..o.len()
                invariant
                    forall|k: int| 0 <= k < o@.len() ==> decreases_to!(*value => o@[k].1),
                    out@.len() == i,
                    forall|k: int|
                        0 <= k < i ==> (#[trigger] out@[k]).0@ == o@[k].0@ && json_to_toml_rel(
                            o@[k].1,
                            out@[k].1,
                        ),
            {
                let key = o[i].0.clone();
                let v = json_to_toml(&o[i].1);
                out.push((key, v));
            }
            TomlValue::Table(out)
        },
    }
}

/// `j` is what the TOML value `t` becomes as a JSON value: an integer keeps
/// its sign as a negative or non-negative JSON integer, a finite float stays a
/// float and any other float becomes `null`, a date-time becomes its text, and
/// arrays and tables are converted element by element.
pub open spec fn toml_to_json_rel(t: TomlValue, j: JsonValue) -> bool
    decreases t,
{
    match t {
        TomlValue::String(s) => j matches JsonValue::String(s2) && s2@ == s@,
        TomlValue::Integer(i) => if i < 0 {
            j == JsonValue::Number(JsonNumber::NegInt(i))
        } else {
            j == JsonValue::Number(JsonNumber::PosInt(i as u64))
        },
        TomlValue::Float(bits) => if spec_double_bits_finite(bits) {
            j == JsonValue::Number(JsonNumber::Float(bits))
        } else {
            j == JsonValue::Null
        },
        TomlValue::Boolean(b) => j == JsonValue::Bool(b),
        TomlValue::Datetime(s) => j matches JsonValue::String(s2) && s2@ == s@,
        TomlValue::Array(a) => j matches JsonValue::Array(b) && b@.len() == a@.len() && forall|i: int|
            #![trigger b@[i]]
            0 <= i < a@.len() ==> toml_to_json_rel(a@[i], b@[i]),
        TomlValue::Table(o) => j matches JsonValue::Object(b) && b@.len() == o@.len() && forall|i: int|
            #![trigger b@[i]]
            0 <= i < o@.len() ==> b@[i].0@ == o@[i].0@ && toml_to_json_rel(o@[i].1, b@[i].1),
    }
}

/// Converts a TOML value to a JSON value.
/// Used when generating default params from parameter definition defaults.
pub fn toml_to_json(value: &TomlValue) -> (r: JsonValue)
    ensures
        toml_to_json_rel(*value, r),
    decreases value,
{
    match value {
        TomlValue::String(s) => JsonValue::String(s.clone()),
        TomlValue::Integer(i) => if *i < 0 {
            JsonValue::Number(JsonNumber::NegInt(*i))
        } else {
            JsonValue::Number(JsonNumber::PosInt(*i as u64))
        },
        TomlValue::Float(bits) => if double_bits_finite(*bits) {
            JsonValue::Number(JsonNumber::Float(*bits))
        } else {
            JsonValue::Null
        },
        TomlValue::Boolean(b) => JsonValue::Bool(*b),
        TomlValue::Datetime(s) => JsonValue::String(s.clone()),
        TomlValue::Array(a) => {
            let mut out: Vec<JsonValue> = Vec::new();
            assert forall|k: int| 0 <= k < a@.len() implies decreases_to!(*value => a@[k]) by {
                assert(decreases_to!(*value => *a));
                assert(decreases_to!(*a => a@));
                assert(decreases_to!(a@ => a@[k]));
            }
            for i in 0..a.len()
                invariant
                    forall|k: int| 0 <= k < a@.len() ==> decreases_to!(*value => a@[k]),
                    out@.len() == i,
                    forall|k: int| 0 <= k < i ==> toml_to_json_rel(a@[k], #[trigger] out@[k]),
            {
                out.push(toml_to_json(&a[i]));
            }
            JsonValue::Array(out)
        },
        TomlValue::Table(o) => {
            let mut out: Vec<(String, JsonValue)> = Vec::new();
            assert forall|k: int| 0 <= k < o@.len() implies decreases_to!(*value => o@[k].1) by {
                assert(decreases_to!(*value => *o));
                assert(decreases_to!(*o => o@));
                assert(decreases_to!(o@ => o@[k]));
                assert(decreases_to!(o@[k] => o@[k].1));
            }
            for i in 0..o.len()
                invariant
                    forall|k: int| 0 <= k < o@.len() ==> decreases_to!(*value => o@[k].1),
                    out@.len() == i,
                    forall|k: int|
                        0 <= k < i ==> (#[trigger] out@[k]).0@ == o@[k].0@ && toml_to_json_rel(
                            o@[k].1,
                            out@[k].1,
                        ),
            {
                let key = o[i].0.clone();
                let v = toml_to_json(&o[i].1);
                out.push((key, v));
            }
            JsonValue::Object(out)
        },
    }
}

/// A JSON value that TOML can carry back unchanged: no `null`, no integer
/// above `i64::MAX`, negative integers stored as negative, and only finite
/// floats, all the way down.
pub open spec fn toml_safe(j: JsonValue) -> bool
    decreases j,
{
    match j {
        JsonValue::Null => false,
        JsonValue::Bool(_) => true,
        JsonValue::Number(n) => match n {
            JsonNumber::PosInt(u) => u <= i64::MAX,
            JsonNumber::NegInt(i) => i < 0,
            JsonNumber::Float(bits) => spec_double_bits_finite(bits),
        },
        JsonValue::String(_) => true,
        JsonValue::Array(a) => forall|i: int| #![trigger a@[i]] 0 <= i < a@.len() ==> toml_safe(a@[i]),
        JsonValue::Object(o) => forall|i: int| #![trigger o@[i]] 0 <= i < o@.len() ==> toml_safe(o@[i].1),
    }
}

/// Converting a JSON value to TOML and back gives the same value, for every
/// value that TOML can carry (see `toml_safe`).
pub proof fn law_json_toml_round_trip(j: JsonValue, t: TomlValue, back: JsonValue)
    requires
        toml_safe(j),
        json_to_toml_rel(j, t),
        toml_to_json_rel(t, back),
    ensures
        json_same(j, back),
    decreases j,
{
    match j {
        JsonValue::Array(a) => {
            if let TomlValue::Array(b) = t {
                if let JsonValue::Array(c) = back {
                    assert forall|i: int| 0 <= i < a@.len() implies json_same(a@[i], #[trigger] c@[i]) by {
                        assert(decreases_to!(j => a));
                        assert(decreases_to!(a => a@));
                        assert(decreases_to!(a@ => a@[i]));
                        assert(toml_safe(a@[i]));
                        assert(json_to_toml_rel(a@[i], b@[i]));
                        assert(toml_to_json_rel(b@[i], c@[i]));
                        law_json_toml_round_trip(a@[i], b@[i], c@[i]);
                    }
                }
            }
        },
        JsonValue::Object(o) => {
            if let TomlValue::Table(b) = t {
                if let JsonValue::Object(c) = back {
                    assert forall|i: int| 0 <= i < o@.len() implies (#[trigger] c@[i]).0@ == o@[i].0@
                        && json_same(o@[i].1, c@[i].1) by {
                        assert(decreases_to!(j => o));
                        assert(decreases_to!(o => o@));
                        assert(decreases_to!(o@ => o@[i]));
                        assert(decreases_to!(o@[i] => o@[i].1));
                        assert(toml_safe(o@[i].1));
                        assert(b@[i].0@ == o@[i].0@ && json_to_toml_rel(o@[i].1, b@[i].1));
                        assert(c@[i].0@ == b@[i].0@ && toml_to_json_rel(b@[i].1, c@[i].1));
                        law_json_toml_round_trip(o@[i].1, b@[i].1, c@[i].1);
                    }
                }
            }
        },
        _ => {},
    }
}

} // verus!
