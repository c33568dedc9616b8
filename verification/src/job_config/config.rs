//! Job configuration in the `@job.toml` layout: a container that is either a
//! Docker image or a Dockerfile, the scripts, GPU use, and the file patterns
//! and job names a job works with; and a job's `node.json`: its name, its
//! description, and its parameter definitions, each written as an array
//! `[type, default, hint]` or `[type, default, hint, [enum values...]]`.
//!
//! Reading the TOML and JSON text (and the older object form of a
//! definition) is the caller's part; this module applies the layouts' rules
//! to what was read, writes a definition back as an array, and checks
//! values against the definitions.

use vstd::prelude::*;
use vstd::string::*;

pub use crate::job_config::job::{ParamType, Scripts};
use crate::assoc::{find_key, insert_entry, lemma_first_key_index, lookup};
use crate::job_config::job::{
    param_type_name, seq_has_string, string_views, strings_debug, strings_debug_text,
};
use crate::job_config::params::JobParams;
use crate::text::{concat2, concat3, contains_string, decimal, push_decimal, str_eq};
use crate::values::{JsonNumber, JsonValue};

verus! {

/// Represents the container configuration for a job.
/// Can be either a Docker image URL or a path to a Dockerfile.
#[derive(Debug, Clone, PartialEq)]
pub enum Container {
    DockerImage(String),
    DockerFile(String),
}

/// The container a `[container]` section describes with the given fields, or
/// the error for a section with both or neither.
pub open spec fn container_of(docker_image: Option<String>, docker_file: Option<String>) -> Result<
    Container,
    Seq<char>,
> {
    match (docker_image, docker_file) {
        (Some(image), None) => Ok(Container::DockerImage(image)),
        (None, Some(file)) => Ok(Container::DockerFile(file)),
        (Some(_), Some(_)) => Err(
            "container section cannot have both 'docker_image' and 'docker_file'"@,
        ),
        (None, None) => Err("container section must have either 'docker_image' or 'docker_file'"@),
    }
}

impl Container {
    /// The container of a `[container]` section that has the given
    /// `docker_image` and `docker_file` fields: exactly one of them must be
    /// present.
    pub fn from_fields(docker_image: Option<String>, docker_file: Option<String>) -> (r: Result<
        Container,
        String,
    >)
        ensures
            match (r, container_of(docker_image, docker_file)) {
                (Ok(c), Ok(d)) => c == d,
                (Err(m), Err(e)) => m@ == e,
                _ => false,
            },
    {
        match (docker_image, docker_file) {
            (Some(image), None) => Ok(Container::DockerImage(image)),
            (None, Some(file)) => Ok(Container::DockerFile(file)),
            (Some(_), Some(_)) => Err(
                String::from_str("container section cannot have both 'docker_image' and 'docker_file'"),
            ),
            (None, None) => Err(
                String::from_str("container section must have either 'docker_image' or 'docker_file'"),
            ),
        }
    }
}

/// Main configuration structure for a computation job.
#[derive(Debug, Clone, PartialEq)]
pub struct JobConfig {
    pub container: Container,
    pub scripts: Scripts,
    /// Enable GPU support for this job (requires NVIDIA Container Toolkit).
    pub use_gpu: bool,
    /// Input file patterns to copy from dependent jobs (glob patterns such as
    /// `*.csv`). If empty, all output files of the dependencies are copied.
    pub inputs: Vec<String>,
    /// Output file patterns to collect from the job into its `outputs/` folder.
    pub outputs: Vec<String>,
    /// Names of the jobs this job depends on.
    pub depends_on: Vec<String>,
}

impl JobConfig {
    /// The configuration with the given container and every other field at
    /// its default: default scripts, no GPU, no inputs, outputs or
    /// dependencies.
    pub fn new(container: Container) -> (r: Self)
        ensures
            r.container == container,
            r.scripts.pre@ == "./pre_run.sh"@,
            r.scripts.run@ == "./run.sh"@,
            r.scripts.post@ == "./post_run.sh"@,
            !r.use_gpu,
            r.inputs@.len() == 0,
            r.outputs@.len() == 0,
            r.depends_on@.len() == 0,
    {
        JobConfig {
            container,
            scripts: Scripts::default(),
            use_gpu: false,
            inputs: Vec::new(),
            outputs: Vec::new(),
            depends_on: Vec::new(),
        }
    }

    /// The configuration from the fields a job file holds, each absent field
    /// taking its default (see [`JobConfig::new`]).
    pub fn from_fields(
        container: Container,
        scripts: Option<Scripts>,
        use_gpu: Option<bool>,
        inputs: Option<Vec<String>>,
        outputs: Option<Vec<String>>,
        depends_on: Option<Vec<String>>,
    ) -> (r: Self)
        ensures
            r.container == container,
            scripts matches Some(s) ==> r.scripts == s,
            scripts is None ==> r.scripts.pre@ == "./pre_run.sh"@ && r.scripts.run@ == "./run.sh"@
                && r.scripts.post@ == "./post_run.sh"@,
            r.use_gpu == match use_gpu {
                Some(b) => b,
                None => false,
            },
            r.inputs@ == match inputs {
                Some(v) => v@,
                None => Seq::empty(),
            },
            r.outputs@ == match outputs {
                Some(v) => v@,
                None => Seq::empty(),
            },
            r.depends_on@ == match depends_on {
                Some(v) => v@,
                None => Seq::empty(),
            },
    {
        let mut c = JobConfig::new(container);
        if let Some(s) = scripts {
            c.scripts = s;
        }
        if let Some(b) = use_gpu {
            c.use_gpu = b;
        }
        if let Some(v) = inputs {
            c.inputs = v;
        }
        if let Some(v) = outputs {
            c.outputs = v;
        }
        if let Some(v) = depends_on {
            c.depends_on = v;
        }
        c
    }
}

/// Error type for job configuration operations; each carries the text of
/// what went wrong.
#[derive(Debug, Clone, PartialEq)]
pub enum JobConfigError {
    FileNotFound(String),
    InvalidToml(String),
    IoError(String),
}

/// The message of a configuration error.
pub open spec fn config_error_message(e: JobConfigError) -> Seq<char> {
    match e {
        JobConfigError::FileNotFound(p) => "Configuration file not found: "@ + p@,
        JobConfigError::InvalidToml(m) => "Invalid TOML syntax: "@ + m@,
        JobConfigError::IoError(m) => "IO error: "@ + m@,
    }
}

impl JobConfigError {
    /// The error's message, as it is displayed.
    pub fn message(&self) -> (r: String)
        ensures
            r@ == config_error_message(*self),
    {
        let (head, body) = match self {
            JobConfigError::FileNotFound(p) => ("Configuration file not found: ", p),
            JobConfigError::InvalidToml(m) => ("Invalid TOML syntax: ", m),
            JobConfigError::IoError(m) => ("IO error: ", m),
        };
        let mut r = String::from_str(head);
        r.append(body.as_str());
        r
    }
}

/// The type a name gives, as the serialized names read: lower case.
pub open spec fn param_type_of_name(s: Seq<char>) -> Option<ParamType> {
    if s == "string"@ {
        Some(ParamType::String)
    } else if s == "integer"@ {
        Some(ParamType::Integer)
    } else if s == "float"@ {
        Some(ParamType::Float)
    } else if s == "boolean"@ {
        Some(ParamType::Boolean)
    } else if s == "file"@ {
        Some(ParamType::File)
    } else if s == "directory"@ {
        Some(ParamType::Directory)
    } else if s == "enum"@ {
        Some(ParamType::Enum)
    } else if s == "array"@ {
        Some(ParamType::Array)
    } else {
        None
    }
}

/// The message for a name that is no type, as serde words an unknown
/// variant.
pub open spec fn unknown_type_message(s: Seq<char>) -> Seq<char> {
    "unknown variant `"@ + s
        + "`, expected one of `string`, `integer`, `float`, `boolean`, `file`, `directory`, `enum`, `array`"@
}

/// The type a name gives, or serde's message for an unknown one.
pub fn param_type_from_name(s: &str) -> (r: Result<ParamType, String>)
    ensures
        match param_type_of_name(s@) {
            Some(t) => r == Ok::<ParamType, String>(t),
            None => r matches Err(m) && m@ == unknown_type_message(s@),
        },
{
    if str_eq(s, "string") {
        Ok(ParamType::String)
    } else if str_eq(s, "integer") {
        Ok(ParamType::Integer)
    } else if str_eq(s, "float") {
        Ok(ParamType::Float)
    } else if str_eq(s, "boolean") {
        Ok(ParamType::Boolean)
    } else if str_eq(s, "file") {
        Ok(ParamType::File)
    } else if str_eq(s, "directory") {
        Ok(ParamType::Directory)
    } else if str_eq(s, "enum") {
        Ok(ParamType::Enum)
    } else if str_eq(s, "array") {
        Ok(ParamType::Array)
    } else {
        Err(
            concat3(
                "unknown variant `",
                s,
                "`, expected one of `string`, `integer`, `float`, `boolean`, `file`, `directory`, `enum`, `array`",
            ),
        )
    }
}

/// A parameter definition of `node.json`.
#[derive(Debug, PartialEq)]
pub struct ParamDefinition {
    pub param_type: ParamType,
    pub default_value: JsonValue,
    pub hint: String,
    pub enum_values: Option<Vec<String>>,
}

/// `r` holds the strings that `items` holds, when every item is a string.
pub open spec fn all_strings_rel(items: Seq<JsonValue>, r: Seq<String>) -> bool {
    &&& r.len() == items.len()
    &&& forall|i: int| 0 <= i < items.len() ==> (#[trigger] items[i] matches JsonValue::String(s) && r[i]@ == s@)
}

/// Every item is a string.
pub open spec fn all_strings(items: Seq<JsonValue>) -> bool {
    forall|i: int| 0 <= i < items.len() ==> (#[trigger] items[i]) is String
}

/// `r` is what reading the array `arr` as a definition gives: a definition
/// of the type the first element names, the second as default, the third
/// as hint and, when there is a fourth, its strings as the enum values; or
/// the message for the first thing that is wrong.
pub open spec fn array_definition_rel(arr: Seq<JsonValue>, r: Result<ParamDefinition, String>) -> bool {
    if arr.len() < 3 {
        r matches Err(m) && m@ == "ParamDefinition array must have at least 3 elements, got "@ + decimal(
            arr.len(),
        )
    } else {
        match arr[0] {
            JsonValue::String(t) => match param_type_of_name(t@) {
                None => r matches Err(m) && m@ == "Invalid param type: "@ + unknown_type_message(t@),
                Some(pt) => match arr[2] {
                    JsonValue::String(h) => if arr.len() > 3 {
                        match arr[3] {
                            JsonValue::Array(ev) => if all_strings(ev@) {
                                r matches Ok(d) && d.param_type == pt && d.default_value == arr[1]
                                    && d.hint@ == h@ && (d.enum_values matches Some(v) && all_strings_rel(
                                    ev@,
                                    v@,
                                ))
                            } else {
                                r matches Err(m) && m@ == "Enum values must be strings"@
                            },
                            _ => r matches Err(m) && m@ == "Fourth element must be an array (enum values)"@,
                        }
                    } else {
                        r matches Ok(d) && d.param_type == pt && d.default_value == arr[1] && d.hint@ == h@
                            && d.enum_values is None
                    },
                    _ => r matches Err(m) && m@ == "Third element must be a string (hint)"@,
                },
            },
            _ => r matches Err(m) && m@ == "First element must be a string (type)"@,
        }
    }
}

/// The strings of `items`, or `None` when one is not a string.
fn strings_of(items: &Vec<JsonValue>) -> (r: Option<Vec<String>>)
    ensures
        r matches Some(v) ==> all_strings(items@) && all_strings_rel(items@, v@),
        r is None ==> !all_strings(items@),
{
    let mut out: Vec<String> = Vec::new();
    let mut i: usize = 0;
    while i < items.len()
        invariant
            i <= items@.len(),
            out@.len() == i,
            forall|k: int| 0 <= k < i ==> (#[trigger] items@[k] matches JsonValue::String(s) && out@[k]@ == s@),
        decreases items@.len() - i,
    {
        match &items[i] {
            JsonValue::String(s) => {
                out.push(s.clone());
            },
            _ => {
                return None;
            },
        }
        i = i + 1;
    }
    Some(out)
}

/// Reads a parameter definition written as an array.
pub fn definition_from_array(arr: Vec<JsonValue>) -> (r: Result<ParamDefinition, String>)
    ensures
        array_definition_rel(arr@, r),
{
    let n = arr.len();
    if n < 3 {
        let mut m = String::from_str("ParamDefinition array must have at least 3 elements, got ");
        push_decimal(&mut m, n as u128);
        return Err(m);
    }
    let param_type = match &arr[0] {
        JsonValue::String(t) => match param_type_from_name(t.as_str()) {
            Ok(pt) => pt,
            Err(e) => {
                return Err(concat2("Invalid param type: ", e.as_str()));
            },
        },
        _ => {
            return Err(String::from_str("First element must be a string (type)"));
        },
    };
    let hint = match &arr[2] {
        JsonValue::String(h) => h.clone(),
        _ => {
            return Err(String::from_str("Third element must be a string (hint)"));
        },
    };
    let enum_values = if n > 3 {
        match &arr[3] {
            JsonValue::Array(ev) => match strings_of(ev) {
                Some(v) => Some(v),
                None => {
                    return Err(String::from_str("Enum values must be strings"));
                },
            },
            _ => {
                return Err(String::from_str("Fourth element must be an array (enum values)"));
            },
        }
    } else {
        None
    };
    let ghost whole = arr@;
    let mut arr = arr;
    let mut default_value = JsonValue::Null;
    std::mem::swap(&mut default_value, &mut arr[1]);
    Ok(ParamDefinition { param_type, default_value, hint, enum_values })
}

/// `j` is the definition `d` written as an array: type name, default,
/// hint, and the enum values when it has them.
pub open spec fn definition_json_rel(d: ParamDefinition, j: JsonValue) -> bool {
    j matches JsonValue::Array(a) && {
        &&& a@.len() == if d.enum_values is Some { 4int } else { 3int }
        &&& a@[0] matches JsonValue::String(t) && t@ == param_type_name(d.param_type)
        &&& a@[1] == d.default_value
        &&& a@[2] matches JsonValue::String(h) && h@ == d.hint@
        &&& d.enum_values matches Some(v) ==> (a@[3] matches JsonValue::Array(ev) && all_strings_rel(
            ev@,
            v@,
        ))
    }
}

/// Writes a definition as an array.
pub fn definition_to_array(d: ParamDefinition) -> (r: JsonValue)
    ensures
        definition_json_rel(d, r),
{
    let ghost d0 = d;
    let ParamDefinition { param_type, default_value, hint, enum_values } = d;
    let mut items: Vec<JsonValue> = Vec::new();
    items.push(JsonValue::String(param_type.to_string()));
    items.push(default_value);
    items.push(JsonValue::String(hint));
    match enum_values {
        Some(v) => {
            let mut ev: Vec<JsonValue> = Vec::new();
            let mut i: usize = 0;
            while i < v.len()
                invariant
                    i <= v@.len(),
                    ev@.len() == i,
                    forall|k: int| 0 <= k < i ==> (#[trigger] ev@[k] matches JsonValue::String(s) && v@[k]@ == s@),
                decreases v@.len() - i,
            {
                ev.push(JsonValue::String(v[i].clone()));
                i = i + 1;
            }
            items.push(JsonValue::Array(ev));
        },
        None => {},
    }
    JsonValue::Array(items)
}

/// A name that reads as a type names that type back.
proof fn lemma_type_name_round_trip(t: ParamType)
    ensures
        param_type_of_name(param_type_name(t)) == Some(t),
{
    reveal_strlit("string");
    reveal_strlit("integer");
    reveal_strlit("float");
    reveal_strlit("boolean");
    reveal_strlit("file");
    reveal_strlit("directory");
    reveal_strlit("enum");
    reveal_strlit("array");
    let names = seq!["string"@, "integer"@, "float"@, "boolean"@, "file"@, "directory"@, "enum"@, "array"@];
    assert forall|i: int, j: int| 0 <= i < j < 8 implies names[i] != names[j] by {
        if names[i].len() == names[j].len() {
            assert(names[i][0] != names[j][0] || names[i][1] != names[j][1]);
        }
    }
    assert(names[0] == "string"@);
    assert(names[1] == "integer"@);
    assert(names[2] == "float"@);
    assert(names[3] == "boolean"@);
    assert(names[4] == "file"@);
    assert(names[5] == "directory"@);
    assert(names[6] == "enum"@);
    assert(names[7] == "array"@);
}

/// Writing a definition as an array and reading it back gives the same
/// definition: the same type, default, hint and enum values.
pub proof fn law_definition_round_trip(
    d: ParamDefinition,
    j: JsonValue,
    r: Result<ParamDefinition, String>,
)
    requires
        definition_json_rel(d, j),
        j matches JsonValue::Array(a) && array_definition_rel(a@, r),
    ensures
        r matches Ok(d2) && d2.param_type == d.param_type && d2.default_value == d.default_value
            && d2.hint@ == d.hint@ && (d.enum_values is None <==> d2.enum_values is None) && (
        d.enum_values matches Some(v) ==> (d2.enum_values matches Some(v2) && v2@.len() == v@.len()
            && forall|i: int| 0 <= i < v@.len() ==> (#[trigger] v2@[i])@ == v@[i]@)),
{
    lemma_type_name_round_trip(d.param_type);
    if let JsonValue::Array(a) = j {
        if let Some(v) = d.enum_values {
            if let JsonValue::Array(ev) = a@[3] {
                assert(all_strings(ev@));
                if let Ok(d2) = r {
                    if let Some(v2) = d2.enum_values {
                        assert forall|i: int| 0 <= i < v@.len() implies (#[trigger] v2@[i])@ == v@[i]@ by {
                            assert(ev@[i] is String);
                        }
                    }
                }
            }
        }
    }
}


/// The message a JSON value gets against a definition of `node.json`, or
/// `None` when it fits. `text` is the value written as JSON.
pub open spec fn node_validation_error(
    t: ParamType,
    enum_values: Option<Vec<String>>,
    v: JsonValue,
    text: Seq<char>,
) -> Option<Seq<char>> {
    match t {
        ParamType::String => if v is String { None } else { Some("Expected string, got "@ + text) },
        ParamType::Integer => if v matches JsonValue::Number(n) && !(n is Float) {
            None
        } else {
            Some("Expected integer, got "@ + text)
        },
        ParamType::Float => if v is Number { None } else { Some("Expected float, got "@ + text) },
        ParamType::Boolean => if v is Bool { None } else { Some("Expected boolean, got "@ + text) },
        ParamType::File | ParamType::Directory => if v is String {
            None
        } else {
            Some("Expected path string, got "@ + text)
        },
        ParamType::Enum => match enum_values {
            Some(vals) => match v {
                JsonValue::String(s) => if seq_has_string(vals@, s@) {
                    None
                } else {
                    Some(
                        "Value '"@ + s@ + "' not in allowed values: "@ + strings_debug_text(
                            string_views(vals@),
                        ),
                    )
                },
                _ => Some("Expected string for enum, got "@ + text),
            },
            None => Some("Enum type requires enum_values to be specified"@),
        },
        ParamType::Array => if v is Array { None } else { Some("Expected array, got "@ + text) },
    }
}

impl ParamDefinition {
    /// Creates a new parameter definition.
    pub fn new(
        param_type: ParamType,
        default_value: JsonValue,
        hint: String,
        enum_values: Option<Vec<String>>,
    ) -> (r: Self)
        ensures
            r.param_type == param_type,
            r.default_value == default_value,
            r.hint == hint,
            r.enum_values == enum_values,
    {
        ParamDefinition { param_type, default_value, hint, enum_values }
    }

    /// Checks a value against this definition; `value_text` is the value
    /// written as JSON, which the messages quote.
    pub fn validate(&self, value: &JsonValue, value_text: &str) -> (r: Result<(), String>)
        ensures
            r is Ok <==> node_validation_error(self.param_type, self.enum_values, *value, value_text@)
                is None,
            r matches Err(m) ==> Some(m@) == node_validation_error(
                self.param_type,
                self.enum_values,
                *value,
                value_text@,
            ),
    {
        let (ok, word) = match self.param_type {
            ParamType::String => (matches!(value, JsonValue::String(_)), "Expected string, got "),
            ParamType::Integer => (
                matches!(value, JsonValue::Number(JsonNumber::PosInt(_))) || matches!(value, JsonValue::Number(JsonNumber::NegInt(_))),
                "Expected integer, got ",
            ),
            ParamType::Float => (matches!(value, JsonValue::Number(_)), "Expected float, got "),
            ParamType::Boolean => (matches!(value, JsonValue::Bool(_)), "Expected boolean, got "),
            ParamType::File | ParamType::Directory => (
                matches!(value, JsonValue::String(_)),
                "Expected path string, got ",
            ),
            ParamType::Array => (matches!(value, JsonValue::Array(_)), "Expected array, got "),
            ParamType::Enum => {
                return match &self.enum_values {
                    Some(vals) => match value {
                        JsonValue::String(s) => {
                            if contains_string(vals, s.as_str()) {
                                proof {
                                    let w = vals@.map_values(|x: String| x@);
                                    let i = choose|i: int| 0 <= i < w.len() && w[i] == s@;
                                    assert(vals@[i]@ == s@);
                                }
                                Ok(())
                            } else {
                                proof {
                                    assert forall|i: int| 0 <= i < vals@.len() implies (#[trigger] vals@[i])@
                                        != s@ by {
                                        assert(vals@.map_values(|x: String| x@)[i] == vals@[i]@);
                                    }
                                }
                                let listed = strings_debug(vals);
                                let mut m = concat3("Value '", s.as_str(), "' not in allowed values: ");
                                m.append(listed.as_str());
                                Err(m)
                            }
                        },
                        _ => Err(concat2("Expected string for enum, got ", value_text)),
                    },
                    None => Err(String::from_str("Enum type requires enum_values to be specified")),
                };
            },
        };
        if ok {
            Ok(())
        } else {
            Err(concat2(word, value_text))
        }
    }
}

/// `a` and `b` are the same JSON value: the same structure, numbers and
/// booleans, and strings and keys with the same text.
pub open spec fn json_same(a: JsonValue, b: JsonValue) -> bool
    decreases a,
{
    match a {
        JsonValue::Null => b is Null,
        JsonValue::Bool(x) => b == JsonValue::Bool(x),
        JsonValue::Number(n) => b == JsonValue::Number(n),
        JsonValue::String(s) => b matches JsonValue::String(t) && t@ == s@,
        JsonValue::Array(xs) => b matches JsonValue::Array(ys) && ys@.len() == xs@.len() && forall|i: int|
            #![trigger ys@[i]]
            0 <= i < xs@.len() ==> json_same(xs@[i], ys@[i]),
        JsonValue::Object(xs) => b matches JsonValue::Object(ys) && ys@.len() == xs@.len() && forall|i: int|
            #![trigger ys@[i]]
            0 <= i < xs@.len() ==> ys@[i].0@ == xs@[i].0@ && json_same(xs@[i].1, ys@[i].1),
    }
}

/// A copy of a JSON value.
pub fn copy_json(value: &JsonValue) -> (r: JsonValue)
    ensures
        json_same(*value, r),
    decreases value,
{
    match value {
        JsonValue::Null => JsonValue::Null,
        JsonValue::Bool(b) => JsonValue::Bool(*b),
        JsonValue::Number(n) => JsonValue::Number(*n),
        JsonValue::String(s) => JsonValue::String(s.clone()),
        JsonValue::Array(a) => {
            let mut out: Vec<JsonValue> = Vec::new();
            assert forall|k: int| 0 <= k < a@.len() implies decreases_to!(*value => a@[k]) by {
                assert(decreases_to!(*value => *a));
                assert(decreases_to!(*a => a@));
                assert(decreases_to!(a@ => a@[k]));
            }
            for i in 0..a.len()
                invariant
                    forall|k: int| 0 <= k < a@.len() ==> decreases_to!(*value => a@[k]),
                    out@.len() == i,
                    forall|k: int| 0 <= k < i ==> json_same(a@[k], #[trigger] out@[k]),
            {
                out.push(copy_json(&a[i]));
            }
            JsonValue::Array(out)
        },
        JsonValue::Object(o) => {
            let mut out: Vec<(String, JsonValue)> = Vec::new();
            assert forall|k: int| 0 <= k < o@.len() implies decreases_to!(*value => o@[k].1) by {
                assert(decreases_to!(*value => *o));
                assert(decreases_to!(*o => o@));
                assert(decreases_to!(o@ => o@[k]));
                assert(decreases_to!(o@[k] => o@[k].1));
            }
            for i in 0..o.len()
                invariant
                    forall|k: int| 0 <= k < o@.len() ==> decreases_to!(*value => o@[k].1),
                    out@.len() == i,
                    forall|k: int|
                        0 <= k < i ==> (#[trigger] out@[k]).0@ == o@[k].0@ && json_same(o@[k].1, out@[k].1),
            {
                let key = o[i].0.clone();
                let v = copy_json(&o[i].1);
                out.push((key, v));
            }
            JsonValue::Object(out)
        },
    }
}

/// The metadata of a job node (`node.json`).
#[derive(Debug, PartialEq)]
pub struct NodeMetadata {
    pub name: String,
    pub description: String,
    /// The parameter definitions, by name.
    pub params: Vec<(String, ParamDefinition)>,
}

/// The error of the first parameter entry, from `i` on, that is unknown or
/// does not fit its definition; `texts[k]` is entry `k` written as JSON.
pub open spec fn first_node_param_error(
    defs: Seq<(String, ParamDefinition)>,
    params: Seq<(String, JsonValue)>,
    texts: Seq<String>,
    i: int,
) -> Option<Seq<char>>
    decreases params.len() - i,
{
    if i < 0 || i >= params.len() {
        None
    } else {
        let e = match lookup(defs, params[i].0@) {
            None => Some("Unknown parameter: "@ + params[i].0@),
            Some(def) => node_validation_error(def.param_type, def.enum_values, params[i].1, texts[i]@),
        };
        match e {
            Some(m) => Some(m),
            None => first_node_param_error(defs, params, texts, i + 1),
        }
    }
}

impl NodeMetadata {
    /// Metadata with the given name and description and no parameters.
    pub fn new(name: String, description: String) -> (r: Self)
        ensures
            r.name == name,
            r.description == description,
            r.params@.len() == 0,
    {
        NodeMetadata { name, description, params: Vec::new() }
    }

    /// Adds, or replaces, the definition of parameter `name`.
    pub fn add_param(&mut self, name: String, definition: ParamDefinition)
        ensures
            lookup(final(self).params@, name@) == Some(definition),
            forall|k: Seq<char>| k != name@ ==> lookup(final(self).params@, k) == lookup(old(self).params@, k),
            final(self).name == old(self).name,
            final(self).description == old(self).description,
    {
        insert_entry(&mut self.params, name, definition);
    }

    /// Checks the parameter values against the definitions, in order: the
    /// first value whose name has no definition, or that does not fit its
    /// definition, gives the error. `texts[k]` is value `k` written as JSON.
    pub fn validate_params(&self, params: &Vec<(String, JsonValue)>, texts: &Vec<String>) -> (r: Result<(), String>)
        requires
            texts@.len() == params@.len(),
        ensures
            match first_node_param_error(self.params@, params@, texts@, 0) {
                None => r is Ok,
                Some(m) => r matches Err(e) && e@ == m,
            },
    {
        let n = params.len();
        let mut i: usize = 0;
        while i < n
            invariant
                n == params@.len(),
                texts@.len() == n,
                i <= n,
                first_node_param_error(self.params@, params@, texts@, 0) == first_node_param_error(
                    self.params@,
                    params@,
                    texts@,
                    i as int,
                ),
            decreases n - i,
        {
            let name = params[i].0.as_str();
            proof {
                lemma_first_key_index(self.params@, name@);
            }
            match find_key(&self.params, name) {
                None => {
                    return Err(concat2("Unknown parameter: ", name));
                },
                Some(f) => {
                    match self.params[f].1.validate(&params[i].1, texts[i].as_str()) {
                        Err(e) => {
                            return Err(e);
                        },
                        Ok(_) => {},
                    }
                },
            }
            i = i + 1;
        }
        Ok(())
    }

    /// The default value of every parameter, by name.
    pub fn generate_default_params(&self) -> (r: JobParams)
        ensures
            r@.len() == self.params@.len(),
            forall|i: int|
                0 <= i < self.params@.len() ==> (#[trigger] r@[i]).0@ == self.params@[i].0@ && json_same(
                    self.params@[i].1.default_value,
                    r@[i].1,
                ),
    {
        let mut out: JobParams = Vec::new();
        let mut i: usize = 0;
        while i < self.params.len()
            invariant
                i <= self.params@.len(),
                out@.len() == i,
                forall|k: int|
                    0 <= k < i ==> (#[trigger] out@[k]).0@ == self.params@[k].0@ && json_same(
                        self.params@[k].1.default_value,
                        out@[k].1,
                    ),
            decreases self.params@.len() - i,
        {
            let v = copy_json(&self.params[i].1.default_value);
            out.push((self.params[i].0.clone(), v));
            i = i + 1;
        }
        out
    }
}

} // verus!
