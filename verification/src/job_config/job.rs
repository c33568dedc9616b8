//! Job metadata (`job.toml`): the container to run, the scripts to run in it,
//! the files a job exchanges with its neighbours, and its parameters.

use vstd::prelude::*;
use vstd::string::*;

use crate::assoc::{find_key, lemma_first_key_index, lookup};
use crate::job_config::params::{json_to_toml, toml_to_json, toml_to_json_rel, JobParams};
use crate::text::{concat2, concat3, str_eq};
use crate::values::{JsonValue, TomlValue};

verus! {

/// Represents the type of a parameter.
#[derive(Debug, Clone, Copy, PartialEq, Eq, Structural)]
pub enum ParamType {
    String,
    Integer,
    Float,
    Boolean,
    File,
    Directory,
    Enum,
    Array,
}

/// The lowercase name a parameter type is written with.
pub open spec fn param_type_name(t: ParamType) -> Seq<char> {
    match t {
        ParamType::String => "string"@,
        ParamType::Integer => "integer"@,
        ParamType::Float => "float"@,
        ParamType::Boolean => "boolean"@,
        ParamType::File => "file"@,
        ParamType::Directory => "directory"@,
        ParamType::Enum => "enum"@,
        ParamType::Array => "array"@,
    }
}

impl ParamType {
    /// The lowercase name of this type, as written in `job.toml`.
    pub fn to_string(&self) -> (r: String)
        ensures
            r@ == param_type_name(*self),
    {
        match self {
            ParamType::String => String::from_str("string"),
            ParamType::Integer => String::from_str("integer"),
            ParamType::Float => String::from_str("float"),
            ParamType::Boolean => String::from_str("boolean"),
            ParamType::File => String::from_str("file"),
            ParamType::Directory => String::from_str("directory"),
            ParamType::Enum => String::from_str("enum"),
            ParamType::Array => String::from_str("array"),
        }
    }
}

/// Represents a parameter definition in job.toml.
#[derive(Debug, PartialEq)]
pub struct ParamDefinition {
    pub param_type: ParamType,
    pub default: TomlValue,
    pub hint: String,
    pub enum_values: Option<Vec<String>>,
}

/// The text Rust's `{:?}` gives for a list of strings.
pub uninterp spec fn strings_debug_text(items: Seq<Seq<char>>) -> Seq<char>;

/// The views of a list of strings.
pub open spec fn string_views(v: Seq<String>) -> Seq<Seq<char>> {
    v.map_values(|s: String| s@)
}

/// Formats a list of strings with `{:?}`.
#[verifier::external_body]
pub(crate) fn strings_debug(items: &Vec<String>) -> (r: String)
    ensures
        r@ == strings_debug_text(string_views(items@)),
{
    format!("{:?}", items)
}

/// Whether `s` is one of `vals`.
pub open spec fn seq_has_string(vals: Seq<String>, s: Seq<char>) -> bool {
    exists|i: int| 0 <= i < vals.len() && (#[trigger] vals[i])@ == s
}

/// The message a value gets when it does not fit a definition, or `None`
/// when it fits. `text` is how the value is written in TOML.
pub open spec fn validation_error(
    t: ParamType,
    enum_values: Option<Vec<String>>,
    v: TomlValue,
    text: Seq<char>,
) -> Option<Seq<char>> {
    match t {
        ParamType::String => if v is String { None } else { Some("Expected string, got "@ + text) },
        ParamType::Integer => if v is Integer { None } else { Some("Expected integer, got "@ + text) },
        ParamType::Float => if v is Float || v is Integer {
            None
        } else {
            Some("Expected float, got "@ + text)
        },
        ParamType::Boolean => if v is Boolean { None } else { Some("Expected boolean, got "@ + text) },
        ParamType::File | ParamType::Directory => if v is String {
            None
        } else {
            Some("Expected path string, got "@ + text)
        },
        ParamType::Enum => match enum_values {
            Some(vals) => match v {
                TomlValue::String(s) => if seq_has_string(vals@, s@) {
                    None
                } else {
                    Some(
                        "Value '"@ + s@ + "' not in allowed values: "@ + strings_debug_text(
                            string_views(vals@),
                        ),
                    )
                },
                _ => Some("Expected string for enum, got "@ + text),
            },
            None => Some("Enum type requires enum_values to be specified"@),
        },
        ParamType::Array => if v is Array { None } else { Some("Expected array, got "@ + text) },
    }
}

/// Whether `s` is one of `vals`.
fn contains_string(vals: &Vec<String>, s: &str) -> (r: bool)
    ensures
        r == seq_has_string(vals@, s@),
{
    let mut i: usize = 0;
    while i < vals.len()
        invariant
            i <= vals@.len(),
            forall|j: int| 0 <= j < i ==> (#[trigger] vals@[j])@ != s@,
        decreases vals@.len() - i,
    {
        if str_eq(vals[i].as_str(), s) {
            return true;
        }
        i = i + 1;
    }
    false
}

impl ParamDefinition {
    /// Creates a new parameter definition.
    pub fn new(
        param_type: ParamType,
        default: TomlValue,
        hint: String,
        enum_values: Option<Vec<String>>,
    ) -> (r: Self)
        ensures
            r.param_type == param_type,
            r.default == default,
            r.hint == hint,
            r.enum_values == enum_values,
    {
        Self { param_type, default, hint, enum_values }
    }

    /// Validates a value against this parameter definition. `value_text` is
    /// the value written as TOML, which the error message quotes.
    pub fn validate(&self, value: &TomlValue, value_text: &str) -> (r: Result<(), String>)
        ensures
            r is Ok <==> validation_error(self.param_type, self.enum_values, *value, value_text@)
                is None,
            r matches Err(m) ==> Some(m@) == validation_error(
                self.param_type,
                self.enum_values,
                *value,
                value_text@,
            ),
    {
        match self.param_type {
            ParamType::String => {
                if !matches!(value, TomlValue::String(_)) {
                    return Err(concat2("Expected string, got ", value_text));
                }
            },
            ParamType::Integer => {
                if !matches!(value, TomlValue::Integer(_)) {
                    return Err(concat2("Expected integer, got ", value_text));
                }
            },
            ParamType::Float => {
                if !matches!(value, TomlValue::Float(_)) && !matches!(value, TomlValue::Integer(_)) {
                    return Err(concat2("Expected float, got ", value_text));
                }
            },
            ParamType::Boolean => {
                if !matches!(value, TomlValue::Boolean(_)) {
                    return Err(concat2("Expected boolean, got ", value_text));
                }
            },
            ParamType::File | ParamType::Directory => {
                if !matches!(value, TomlValue::String(_)) {
                    return Err(concat2("Expected path string, got ", value_text));
                }
            },
            ParamType::Enum => {
                match &self.enum_values {
                    Some(enum_vals) => {
                        match value {
                            TomlValue::String(s) => {
                                if !contains_string(enum_vals, s.as_str()) {
                                    let listed = strings_debug(enum_vals);
                                    let mut m = concat3(
                                        "Value '",
                                        s.as_str(),
                                        "' not in allowed values: ",
                                    );
                                    m.append(listed.as_str());
                                    return Err(m);
                                }
                            },
                            _ => {
                                return Err(concat2("Expected string for enum, got ", value_text));
                            },
                        }
                    },
                    None => {
                        return Err(
                            String::from_str("Enum type requires enum_values to be specified"),
                        );
                    },
                }
            },
            ParamType::Array => {
                if !matches!(value, TomlValue::Array(_)) {
                    return Err(concat2("Expected array, got ", value_text));
                }
            },
        }
        Ok(())
    }
}

/// The message a JSON parameter value gets against a definition, judged on
/// the TOML value it converts to (see `json_to_toml`). `text` is how that TOML
/// value is written.
pub open spec fn json_validation_error(
    t: ParamType,
    enum_values: Option<Vec<String>>,
    j: JsonValue,
    text: Seq<char>,
) -> Option<Seq<char>> {
    let is_str = j is Null || j is String;
    let is_int = j matches JsonValue::Number(n) && crate::job_config::params::spec_json_number_as_i64(
        n,
    ) is Some;
    let is_float = j matches JsonValue::Number(n)
        && crate::job_config::params::spec_json_number_as_i64(n) is None;
    let str_content = match j {
        JsonValue::String(s) => s@,
        _ => "null"@,
    };
    match t {
        ParamType::String => if is_str { None } else { Some("Expected string, got "@ + text) },
        ParamType::Integer => if is_int { None } else { Some("Expected integer, got "@ + text) },
        ParamType::Float => if is_float || is_int {
            None
        } else {
            Some("Expected float, got "@ + text)
        },
        ParamType::Boolean => if j is Bool { None } else { Some("Expected boolean, got "@ + text) },
        ParamType::File | ParamType::Directory => if is_str {
            None
        } else {
            Some("Expected path string, got "@ + text)
        },
        ParamType::Enum => match enum_values {
            Some(vals) => if is_str {
                if seq_has_string(vals@, str_content) {
                    None
                } else {
                    Some(
                        "Value '"@ + str_content + "' not in allowed values: "@
                            + strings_debug_text(string_views(vals@)),
                    )
                }
            } else {
                Some("Expected string for enum, got "@ + text)
            },
            None => Some("Enum type requires enum_values to be specified"@),
        },
        ParamType::Array => if j is Array { None } else { Some("Expected array, got "@ + text) },
    }
}

/// The error of one parameter entry against a table of definitions: unknown
/// names are rejected, and known ones are validated.
pub open spec fn param_entry_error(
    defs: Seq<(String, ParamDefinition)>,
    name: Seq<char>,
    value: JsonValue,
    text: Seq<char>,
) -> Option<Seq<char>> {
    match lookup(defs, name) {
        None => Some("Unknown parameter: "@ + name),
        Some(def) => json_validation_error(def.param_type, def.enum_values, value, text),
    }
}

/// The error of entry `i` of `params`, whose TOML text is `texts[i]`.
pub open spec fn params_entry_error_at(
    defs: Seq<(String, ParamDefinition)>,
    params: Seq<(String, JsonValue)>,
    texts: Seq<String>,
    i: int,
) -> Option<Seq<char>> {
    param_entry_error(defs, params[i].0@, params[i].1, texts[i]@)
}

/// The error of the first entry from `i` on that is unknown or invalid.
pub open spec fn first_param_error_from(
    defs: Seq<(String, ParamDefinition)>,
    params: Seq<(String, JsonValue)>,
    texts: Seq<String>,
    i: int,
) -> Option<Seq<char>>
    decreases params.len() - i,
{
    if i < 0 || i >= params.len() {
        None
    } else {
        match params_entry_error_at(defs, params, texts, i) {
            Some(e) => Some(e),
            None => first_param_error_from(defs, params, texts, i + 1),
        }
    }
}

/// The error of the first entry that is unknown or invalid, if any.
pub open spec fn first_param_error(
    defs: Seq<(String, ParamDefinition)>,
    params: Seq<(String, JsonValue)>,
    texts: Seq<String>,
) -> Option<Seq<char>> {
    first_param_error_from(defs, params, texts, 0)
}

/// What `validate_params_against` reports is the error of the first bad
/// entry, or nothing when there is none.
pub proof fn lemma_first_param_error(
    defs: Seq<(String, ParamDefinition)>,
    params: Seq<(String, JsonValue)>,
    texts: Seq<String>,
    i: int,
    e: int,
)
    requires
        0 <= i <= e <= params.len(),
        forall|j: int| i <= j < e ==> params_entry_error_at(defs, params, texts, j) is None,
    ensures
        e == params.len() ==> first_param_error_from(defs, params, texts, i) is None,
        e < params.len() && params_entry_error_at(defs, params, texts, e) is Some
            ==> first_param_error_from(defs, params, texts, i) == params_entry_error_at(
            defs,
            params,
            texts,
            e,
        ),
    decreases e - i,
{
    if i < e {
        lemma_first_param_error(defs, params, texts, i + 1, e);
    }
}

/// Checks parameter values against a table of definitions, entry by entry,
/// and reports the first entry that is unknown or invalid. `texts[i]` is how
/// the value of entry `i` is written as TOML.
pub fn validate_params_against(
    defs: &Vec<(String, ParamDefinition)>,
    params: &JobParams,
    texts: &Vec<String>,
) -> (r: Result<(), String>)
    requires
        texts@.len() == params@.len(),
    ensures
        r is Ok <==> forall|i: int|
            0 <= i < params@.len() ==> params_entry_error_at(defs@, params@, texts@, i) is None,
        r matches Err(m) ==> exists|i: int|
            0 <= i < params@.len() && params_entry_error_at(defs@, params@, texts@, i) == Some(m@)
                && forall|j: int|
                0 <= j < i ==> params_entry_error_at(defs@, params@, texts@, j) is None,
{
    let mut i: usize = 0;
    while i < params.len()
        invariant
            i <= params@.len(),
            texts@.len() == params@.len(),
            forall|j: int| 0 <= j < i ==> params_entry_error_at(defs@, params@, texts@, j) is None,
        decreases params@.len() - i,
    {
        let name = &params[i].0;
        proof {
            lemma_first_key_index(defs@, name@);
        }
        match find_key(defs, name.as_str()) {
            None => {
                let m = concat2("Unknown parameter: ", name.as_str());
                assert(params_entry_error_at(defs@, params@, texts@, i as int) == Some(m@));
                return Err(m);
            },
            Some(k) => {
                let def = &defs[k].1;
                let t = json_to_toml(&params[i].1);
                let res = def.validate(&t, texts[i].as_str());
                assert(validation_error(def.param_type, def.enum_values, t, texts@[i as int]@)
                    == json_validation_error(def.param_type, def.enum_values, params@[i as int].1, texts@[i as int]@));
                match res {
                    Ok(()) => {},
                    Err(m) => {
                        return Err(m);
                    },
                }
            },
        }
        i = i + 1;
    }
    Ok(())
}

/// Default parameter values: each definition's default, converted to JSON,
/// under the definition's name, in table order.
pub fn default_params_of(defs: &Vec<(String, ParamDefinition)>) -> (r: JobParams)
    ensures
        r@.len() == defs@.len(),
        forall|i: int|
            0 <= i < defs@.len() ==> (#[trigger] r@[i]).0@ == defs@[i].0@ && toml_to_json_rel(
                defs@[i].1.default,
                r@[i].1,
            ),
{
    let mut out: JobParams = Vec::new();
    for i in 0..defs.len()
        invariant
            out@.len() == i,
            forall|k: int|
                0 <= k < i ==> (#[trigger] out@[k]).0@ == defs@[k].0@ && toml_to_json_rel(
                    defs@[k].1.default,
                    out@[k].1,
                ),
    {
        let name = defs[i].0.clone();
        let v = toml_to_json(&defs[i].1.default);
        out.push((name, v));
    }
    out
}

/// Represents the container configuration for a job: the image to run and
/// whether the job needs a GPU.
#[derive(Debug, Clone, PartialEq)]
pub struct Container {
    /// Docker image URL (e.g., "ubuntu:22.04", "python:3.11")
    pub image: String,
    /// Enable GPU support for this job (requires NVIDIA Container Toolkit).
    pub use_gpu: bool,
}

impl Container {
    /// Creates a new container configuration with the given image.
    pub fn new(image: String) -> (r: Self)
        ensures
            r.image == image,
            !r.use_gpu,
    {
        Self { image, use_gpu: false }
    }

    /// Creates a new container configuration with GPU support.
    pub fn with_gpu(image: String) -> (r: Self)
        ensures
            r.image == image,
            r.use_gpu,
    {
        Self { image, use_gpu: true }
    }
}

/// Represents the scripts that will be executed for a job.
/// All fields are optional and have default values.
#[derive(Debug, Clone, PartialEq)]
pub struct Scripts {
    pub pre: String,
    pub run: String,
    pub post: String,
}

/// The script run before the main one, unless the job names another.
pub fn default_pre_script() -> (r: String)
    ensures
        r@ == "./pre_run.sh"@,
{
    String::from_str("./pre_run.sh")
}

/// The main script, unless the job names another.
pub fn default_run_script() -> (r: String)
    ensures
        r@ == "./run.sh"@,
{
    String::from_str("./run.sh")
}

/// The script run after the main one, unless the job names another.
pub fn default_post_script() -> (r: String)
    ensures
        r@ == "./post_run.sh"@,
{
    String::from_str("./post_run.sh")
}

impl Scripts {
    /// The scripts of a `[scripts]` section with the given fields, each absent
    /// one taking its default.
    pub fn from_fields(pre: Option<String>, run: Option<String>, post: Option<String>) -> (r: Self)
        ensures
            r.pre@ == match pre {
                Some(p) => p@,
                None => "./pre_run.sh"@,
            },
            r.run@ == match run {
                Some(p) => p@,
                None => "./run.sh"@,
            },
            r.post@ == match post {
                Some(p) => p@,
                None => "./post_run.sh"@,
            },
    {
        Scripts {
            pre: match pre {
                Some(p) => p,
                None => default_pre_script(),
            },
            run: match run {
                Some(p) => p,
                None => default_run_script(),
            },
            post: match post {
                Some(p) => p,
                None => default_post_script(),
            },
        }
    }
}

impl Default for Scripts {
    fn default() -> (r: Self)
        ensures
            r.pre@ == "./pre_run.sh"@,
            r.run@ == "./run.sh"@,
            r.post@ == "./post_run.sh"@,
    {
        Self { pre: default_pre_script(), run: default_run_script(), post: default_post_script() }
    }
}

/// Main configuration structure for a computation job.
#[derive(Debug, PartialEq)]
pub struct JobMeta {
    /// Job name for display purposes.
    pub name: String,
    /// Job description.
    pub description: String,
    /// Container configuration (includes image and GPU settings).
    pub container: Container,
    /// Scripts to execute.
    pub scripts: Scripts,
    /// List of input file patterns to copy from dependent jobs.
    pub inputs: Vec<String>,
    /// List of output file patterns to collect from the job.
    pub outputs: Vec<String>,
    /// Parameter definitions for this job, by name.
    pub params: Vec<(String, ParamDefinition)>,
}

impl JobMeta {
    /// Creates a new job metadata with required fields.
    pub fn new(name: String, description: String, container: Container) -> (r: Self)
        ensures
            r.name == name,
            r.description == description,
            r.container == container,
            r.scripts.pre@ == "./pre_run.sh"@,
            r.scripts.run@ == "./run.sh"@,
            r.scripts.post@ == "./post_run.sh"@,
            r.inputs@.len() == 0,
            r.outputs@.len() == 0,
            r.params@.len() == 0,
    {
        Self {
            name,
            description,
            container,
            scripts: Scripts::default(),
            inputs: Vec::new(),
            outputs: Vec::new(),
            params: Vec::new(),
        }
    }

    /// Adds a parameter definition to this job, replacing any definition
    /// already held under that name.
    pub fn add_param(&mut self, name: String, definition: ParamDefinition)
        ensures
            lookup(final(self).params@, name@) == Some(definition),
            forall|k: Seq<char>|
                k != name@ ==> lookup(final(self).params@, k) == lookup(old(self).params@, k),
            final(self).name == old(self).name,
            final(self).description == old(self).description,
            final(self).container == old(self).container,
            final(self).scripts == old(self).scripts,
            final(self).inputs == old(self).inputs,
            final(self).outputs == old(self).outputs,
    {
        crate::assoc::insert_entry(&mut self.params, name, definition);
    }

    /// Validates parameter values against this job's definitions, reporting
    /// the first unknown or invalid entry. `texts[i]` is how the value of
    /// entry `i` is written as TOML.
    pub fn validate_params(&self, params: &JobParams, texts: &Vec<String>) -> (r: Result<(), String>)
        requires
            texts@.len() == params@.len(),
        ensures
            r is Ok <==> forall|i: int|
                0 <= i < params@.len() ==> params_entry_error_at(self.params@, params@, texts@, i)
                    is None,
            r matches Err(m) ==> exists|i: int|
                0 <= i < params@.len() && params_entry_error_at(self.params@, params@, texts@, i)
                    == Some(m@) && forall|j: int|
                    0 <= j < i ==> params_entry_error_at(self.params@, params@, texts@, j) is None,
    {
        validate_params_against(&self.params, params, texts)
    }

    /// Generates default parameters: each definition's default, converted
    /// to JSON.
    pub fn generate_default_params(&self) -> (r: JobParams)
        ensures
            r@.len() == self.params@.len(),
            forall|i: int|
                0 <= i < self.params@.len() ==> (#[trigger] r@[i]).0@ == self.params@[i].0@
                    && toml_to_json_rel(self.params@[i].1.default, r@[i].1),
    {
        default_params_of(&self.params)
    }
}

} // verus!
