use silva::job_config::job::{Container, JobMeta, ParamDefinition, ParamType};
use silva::job_config::params::{json_to_toml, toml_to_json};
use silva::values::{JsonNumber, JsonValue, TomlValue};

#[test]
fn test_toml_to_json_conversion() {
    let toml_val = TomlValue::String("test".to_string());
    let json_val = toml_to_json(&toml_val);
    assert_eq!(json_val, JsonValue::String("test".to_string()));

    let toml_val = TomlValue::Integer(42);
    let json_val = toml_to_json(&toml_val);
    assert_eq!(json_val, JsonValue::Number(JsonNumber::PosInt(42)));

    let toml_val = TomlValue::Boolean(true);
    let json_val = toml_to_json(&toml_val);
    assert_eq!(json_val, JsonValue::Bool(true));
}

#[test]
fn test_json_to_toml_conversion() {
    let json_val = JsonValue::String("test".to_string());
    let toml_val = json_to_toml(&json_val);
    assert_eq!(toml_val, TomlValue::String("test".to_string()));

    let json_val = JsonValue::Number(JsonNumber::PosInt(42));
    let toml_val = json_to_toml(&json_val);
    assert_eq!(toml_val, TomlValue::Integer(42));
}

#[test]
fn toml_to_json_edges() {
    assert_eq!(toml_to_json(&TomlValue::Integer(-3)), JsonValue::Number(JsonNumber::NegInt(-3)));
    let half = 0.5f64.to_bits();
    assert_eq!(toml_to_json(&TomlValue::Float(half)), JsonValue::Number(JsonNumber::Float(half)));
    assert_eq!(toml_to_json(&TomlValue::Float(f64::INFINITY.to_bits())), JsonValue::Null);
    assert_eq!(toml_to_json(&TomlValue::Float(f64::NAN.to_bits())), JsonValue::Null);
    assert_eq!(
        toml_to_json(&TomlValue::Datetime("1979-05-27T07:32:00Z".to_string())),
        JsonValue::String("1979-05-27T07:32:00Z".to_string())
    );
    assert_eq!(
        toml_to_json(&TomlValue::Table(vec![(
            "a".to_string(),
            TomlValue::Array(vec![TomlValue::Boolean(false)])
        )])),
        JsonValue::Object(vec![("a".to_string(), JsonValue::Array(vec![JsonValue::Bool(false)]))])
    );
}

#[test]
fn json_to_toml_edges() {
    assert_eq!(json_to_toml(&JsonValue::Null), TomlValue::String("null".to_string()));
    assert_eq!(
        json_to_toml(&JsonValue::Number(JsonNumber::NegInt(-9))),
        TomlValue::Integer(-9)
    );
    // Above i64::MAX the number becomes the nearest double.
    assert_eq!(
        json_to_toml(&JsonValue::Number(JsonNumber::PosInt(u64::MAX))),
        TomlValue::Float((u64::MAX as f64).to_bits())
    );
    assert_eq!(
        json_to_toml(&JsonValue::Number(JsonNumber::PosInt(9_223_372_036_854_775_809))),
        TomlValue::Float((9_223_372_036_854_775_809u64 as f64).to_bits())
    );
}

#[test]
fn json_toml_round_trip_keeps_the_value() {
    let v = JsonValue::Object(vec![
        ("n".to_string(), JsonValue::Number(JsonNumber::NegInt(-1))),
        ("p".to_string(), JsonValue::Number(JsonNumber::PosInt(7))),
        ("f".to_string(), JsonValue::Number(JsonNumber::Float(2.5f64.to_bits()))),
        ("s".to_string(), JsonValue::Array(vec![JsonValue::String("x".to_string()), JsonValue::Bool(true)])),
    ]);
    assert_eq!(toml_to_json(&json_to_toml(&v)), v);
    // `null` does not come back: TOML has no null.
    assert_eq!(
        toml_to_json(&json_to_toml(&JsonValue::Null)),
        JsonValue::String("null".to_string())
    );
}

fn value_of<'a>(params: &'a [(String, JsonValue)], key: &str) -> &'a JsonValue {
    &params.iter().find(|(n, _)| n == key).unwrap().1
}

fn meta() -> JobMeta {
    JobMeta::new(
        "Test Job".to_string(),
        "A test job".to_string(),
        Container::new("ubuntu:22.04".to_string()),
    )
}

#[test]
fn test_validate_params() {
    let mut meta = meta();
    meta.add_param(
        "count".to_string(),
        ParamDefinition::new(ParamType::Integer, TomlValue::Integer(10), "A count".to_string(), None),
    );

    let params = vec![("count".to_string(), JsonValue::Number(JsonNumber::PosInt(42)))];
    assert!(meta.validate_params(&params, &vec!["42".to_string()]).is_ok());

    let params = vec![("count".to_string(), JsonValue::String("not a number".to_string()))];
    assert!(meta.validate_params(&params, &vec!["\"not a number\"".to_string()]).is_err());
}

#[test]
fn test_generate_default_params() {
    let mut meta = meta();
    meta.add_param(
        "name".to_string(),
        ParamDefinition::new(
            ParamType::String,
            TomlValue::String("test".to_string()),
            "A name".to_string(),
            None,
        ),
    );
    meta.add_param(
        "count".to_string(),
        ParamDefinition::new(ParamType::Integer, TomlValue::Integer(10), "A count".to_string(), None),
    );
    let defaults = meta.generate_default_params();
    assert_eq!(*value_of(&defaults, "name"), JsonValue::String("test".to_string()));
    assert_eq!(*value_of(&defaults, "count"), JsonValue::Number(JsonNumber::PosInt(10)));
}

#[test]
fn test_workflow_meta_with_dependencies() {
    let mut metadata = silva::job_config::workflow::WorkflowMeta::new(
        "ML Pipeline".to_string(),
        "A machine learning pipeline".to_string(),
    );
    metadata.set_job_dependencies("job_2".to_string(), vec!["job_1".to_string()]);
    metadata.set_job_dependencies(
        "job_3".to_string(),
        vec!["job_1".to_string(), "job_2".to_string()],
    );
    assert_eq!(metadata.name, "ML Pipeline");

    assert_eq!(metadata.get_job_dependencies("job_1"), &[] as &[String]);
    assert_eq!(metadata.get_job_dependencies("job_2"), &["job_1".to_string()]);
    assert_eq!(
        metadata.get_job_dependencies("job_3"),
        &["job_1".to_string(), "job_2".to_string()]
    );
}
