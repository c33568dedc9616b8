use silva::job_config::config::{
    copy_json, definition_from_array, definition_to_array, param_type_from_name, Container,
    JobConfig, JobConfigError, NodeMetadata, ParamDefinition, ParamType,
};
use silva::values::{JsonNumber, JsonValue};
use silva::workflow::job::Job;

fn text(s: &str) -> JsonValue {
    JsonValue::String(s.to_string())
}

#[test]
fn test_param_definition_array_format() {
    let arr = vec![
        text("string"),
        text("4OHU"),
        text("The ID of the PDB file to download."),
    ];
    let param_def = definition_from_array(arr).unwrap();

    assert_eq!(param_def.param_type, ParamType::String);
    assert_eq!(param_def.default_value, JsonValue::String("4OHU".to_string()));
    assert_eq!(param_def.hint, "The ID of the PDB file to download.");
    assert_eq!(param_def.enum_values, None);
}

#[test]
fn test_param_definition_array_format_with_enum() {
    let arr = vec![
        text("enum"),
        text("pdb"),
        text("Output file format"),
        JsonValue::Array(vec![text("pdb"), text("cif"), text("xml")]),
    ];
    let param_def = definition_from_array(arr).unwrap();

    assert_eq!(param_def.param_type, ParamType::Enum);
    assert_eq!(param_def.default_value, JsonValue::String("pdb".to_string()));
    assert_eq!(param_def.hint, "Output file format");
    assert_eq!(
        param_def.enum_values,
        Some(vec!["pdb".to_string(), "cif".to_string(), "xml".to_string()])
    );
}

#[test]
fn test_param_definition_serialization_to_array() {
    let param_def = ParamDefinition::new(
        ParamType::String,
        JsonValue::String("test".to_string()),
        "Test parameter".to_string(),
        None,
    );

    let parsed = definition_to_array(param_def);
    match parsed {
        JsonValue::Array(arr) => {
            assert_eq!(arr.len(), 3);
            assert_eq!(arr[0], text("string"));
            assert_eq!(arr[1], text("test"));
            assert_eq!(arr[2], text("Test parameter"));
        }
        _ => panic!("expected an array"),
    }
}

#[test]
fn definition_array_too_short_names_its_length() {
    let err = definition_from_array(vec![text("string"), text("x")]).unwrap_err();
    assert_eq!(err, "ParamDefinition array must have at least 3 elements, got 2");
}

#[test]
fn definition_array_errors_for_each_malformed_element() {
    let first = definition_from_array(vec![JsonValue::Null, text("x"), text("h")]).unwrap_err();
    assert_eq!(first, "First element must be a string (type)");

    let unknown = definition_from_array(vec![text("number"), text("x"), text("h")]).unwrap_err();
    assert_eq!(
        unknown,
        "Invalid param type: unknown variant `number`, expected one of `string`, `integer`, `float`, `boolean`, `file`, `directory`, `enum`, `array`"
    );

    let third = definition_from_array(vec![text("string"), text("x"), JsonValue::Bool(true)])
        .unwrap_err();
    assert_eq!(third, "Third element must be a string (hint)");

    let fourth = definition_from_array(vec![text("enum"), text("x"), text("h"), text("a")])
        .unwrap_err();
    assert_eq!(fourth, "Fourth element must be an array (enum values)");

    let values = definition_from_array(vec![
        text("enum"),
        text("x"),
        text("h"),
        JsonValue::Array(vec![text("a"), JsonValue::Number(JsonNumber::PosInt(1))]),
    ])
    .unwrap_err();
    assert_eq!(values, "Enum values must be strings");
}

#[test]
fn definition_array_keeps_any_default_value() {
    let d = definition_from_array(vec![
        text("integer"),
        JsonValue::Number(JsonNumber::PosInt(42)),
        text("Answer"),
    ])
    .unwrap();
    assert_eq!(d.param_type, ParamType::Integer);
    assert_eq!(d.default_value, JsonValue::Number(JsonNumber::PosInt(42)));
}

#[test]
fn param_type_names_are_lower_case() {
    assert_eq!(param_type_from_name("directory"), Ok(ParamType::Directory));
    assert_eq!(param_type_from_name("array"), Ok(ParamType::Array));
    assert!(param_type_from_name("String").is_err());
}

#[test]
fn definition_written_as_array_reads_back() {
    let d = ParamDefinition::new(
        ParamType::Enum,
        text("cif"),
        "Format".to_string(),
        Some(vec!["pdb".to_string(), "cif".to_string()]),
    );
    let written = definition_to_array(d);
    let arr = match written {
        JsonValue::Array(a) => a,
        _ => panic!("expected an array"),
    };
    assert_eq!(arr.len(), 4);
    let back = definition_from_array(arr).unwrap();
    assert_eq!(back.param_type, ParamType::Enum);
    assert_eq!(back.default_value, text("cif"));
    assert_eq!(back.hint, "Format");
    assert_eq!(back.enum_values, Some(vec!["pdb".to_string(), "cif".to_string()]));
}

#[test]
fn node_definition_validate_messages() {
    let s = ParamDefinition::new(ParamType::String, text(""), String::new(), None);
    assert!(s.validate(&text("a"), "\"a\"").is_ok());
    assert_eq!(
        s.validate(&JsonValue::Number(JsonNumber::PosInt(3)), "3").unwrap_err(),
        "Expected string, got 3"
    );

    let i = ParamDefinition::new(ParamType::Integer, JsonValue::Null, String::new(), None);
    assert!(i.validate(&JsonValue::Number(JsonNumber::NegInt(-3)), "-3").is_ok());
    assert_eq!(
        i.validate(&JsonValue::Number(JsonNumber::Float(0x3FF8000000000000)), "1.5")
            .unwrap_err(),
        "Expected integer, got 1.5"
    );

    let f = ParamDefinition::new(ParamType::Float, JsonValue::Null, String::new(), None);
    assert!(f.validate(&JsonValue::Number(JsonNumber::PosInt(2)), "2").is_ok());
    assert_eq!(f.validate(&JsonValue::Bool(true), "true").unwrap_err(), "Expected float, got true");

    let b = ParamDefinition::new(ParamType::Boolean, JsonValue::Null, String::new(), None);
    assert_eq!(b.validate(&text("yes"), "\"yes\"").unwrap_err(), "Expected boolean, got \"yes\"");

    let p = ParamDefinition::new(ParamType::File, JsonValue::Null, String::new(), None);
    assert_eq!(p.validate(&JsonValue::Null, "null").unwrap_err(), "Expected path string, got null");

    let a = ParamDefinition::new(ParamType::Array, JsonValue::Null, String::new(), None);
    assert!(a.validate(&JsonValue::Array(vec![]), "[]").is_ok());
    assert_eq!(a.validate(&text("x"), "\"x\"").unwrap_err(), "Expected array, got \"x\"");
}

#[test]
fn node_enum_validate_messages() {
    let e = ParamDefinition::new(
        ParamType::Enum,
        text("pdb"),
        String::new(),
        Some(vec!["pdb".to_string(), "cif".to_string()]),
    );
    assert!(e.validate(&text("cif"), "\"cif\"").is_ok());
    assert_eq!(
        e.validate(&text("xml"), "\"xml\"").unwrap_err(),
        "Value 'xml' not in allowed values: [\"pdb\", \"cif\"]"
    );
    assert_eq!(
        e.validate(&JsonValue::Number(JsonNumber::PosInt(1)), "1").unwrap_err(),
        "Expected string for enum, got 1"
    );

    let missing = ParamDefinition::new(ParamType::Enum, text("pdb"), String::new(), None);
    assert_eq!(
        missing.validate(&text("pdb"), "\"pdb\"").unwrap_err(),
        "Enum type requires enum_values to be specified"
    );
}

#[test]
fn copy_json_copies_nested_values() {
    let v = JsonValue::Object(vec![
        ("a".to_string(), JsonValue::Array(vec![text("x"), JsonValue::Bool(false)])),
        ("b".to_string(), JsonValue::Number(JsonNumber::NegInt(-7))),
    ]);
    let c = copy_json(&v);
    assert_eq!(c, v);
}

#[test]
fn node_metadata_validates_and_defaults() {
    let mut m = NodeMetadata::new("1 Download PDB".to_string(), "Download".to_string());
    m.add_param(
        "pdb_id".to_string(),
        ParamDefinition::new(ParamType::String, text("4OHU"), "The ID".to_string(), None),
    );
    m.add_param(
        "count".to_string(),
        ParamDefinition::new(
            ParamType::Integer,
            JsonValue::Number(JsonNumber::PosInt(1)),
            "How many".to_string(),
            None,
        ),
    );
    assert_eq!(m.params.len(), 2);

    let defaults = m.generate_default_params();
    assert_eq!(defaults.len(), 2);
    assert_eq!(defaults[0], ("pdb_id".to_string(), text("4OHU")));
    assert_eq!(defaults[1], ("count".to_string(), JsonValue::Number(JsonNumber::PosInt(1))));

    let ok = vec![("count".to_string(), JsonValue::Number(JsonNumber::PosInt(3)))];
    assert!(m.validate_params(&ok, &vec!["3".to_string()]).is_ok());

    let unknown = vec![("other".to_string(), text("x"))];
    assert_eq!(
        m.validate_params(&unknown, &vec!["\"x\"".to_string()]).unwrap_err(),
        "Unknown parameter: other"
    );

    let wrong = vec![
        ("pdb_id".to_string(), text("1ABC")),
        ("count".to_string(), text("many")),
    ];
    assert_eq!(
        m.validate_params(&wrong, &vec!["\"1ABC\"".to_string(), "\"many\"".to_string()])
            .unwrap_err(),
        "Expected integer, got \"many\""
    );
}

#[test]
fn node_metadata_add_param_replaces() {
    let mut m = NodeMetadata::new("n".to_string(), "d".to_string());
    m.add_param(
        "p".to_string(),
        ParamDefinition::new(ParamType::String, text("a"), "h".to_string(), None),
    );
    m.add_param(
        "p".to_string(),
        ParamDefinition::new(ParamType::String, text("b"), "h".to_string(), None),
    );
    assert_eq!(m.params.len(), 1);
    assert_eq!(m.params[0].1.default_value, text("b"));
}

fn sample_config() -> JobConfig {
    JobConfig::new(Container::DockerImage("ubuntu:22.04".to_string()))
}

#[test]
fn job_load_config_reads_the_configuration_file() {
    let job = Job::new("j".to_string(), "/w/j".to_string());
    let mut asked = String::new();
    let r = job.load_config(true, false, |p: String| {
        asked = p;
        Ok(sample_config())
    });
    assert!(r.is_ok());
    assert_eq!(asked, "/w/j/@job.toml");
}

#[test]
fn job_load_config_passes_the_read_error_on() {
    let job = Job::new("j".to_string(), "/w/j".to_string());
    let r = job.load_config(false, true, |_p: String| {
        Err(JobConfigError::InvalidToml("bad".to_string()))
    });
    assert_eq!(r.unwrap_err(), JobConfigError::InvalidToml("bad".to_string()));
}

#[test]
fn job_load_config_without_any_file() {
    let job = Job::new("j".to_string(), "/w/j".to_string());
    let r = job.load_config(false, false, |_p: String| Ok(sample_config()));
    assert_eq!(
        r.unwrap_err(),
        JobConfigError::FileNotFound(
            "No job configuration found at /w/j/@job.toml or /w/j/@job.toml".to_string()
        )
    );
}

#[test]
fn a_job_without_node_metadata_gets_a_default() {
    let job = Job::new("fold".to_string(), "/w/fold".to_string());
    let m = job.default_node_metadata();
    assert_eq!(m.name, "fold");
    assert_eq!(m.description, "Job: fold");
    assert!(m.params.is_empty());
}
