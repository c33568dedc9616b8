use silva::job_config::config::{Container as ConfigContainer, JobConfig, JobConfigError};
use silva::job_config::job::{Container, JobMeta, ParamType, Scripts};
use silva::job_config::workflow::WorkflowMeta;

#[test]
fn config_test_scripts_default_values() {
    let scripts = silva::job_config::config::Scripts::default();
    assert_eq!(scripts.pre, "./pre_run.sh");
    assert_eq!(scripts.run, "./run.sh");
    assert_eq!(scripts.post, "./post_run.sh");
}

#[test]
fn job_test_scripts_default_values() {
    let scripts = Scripts::default();
    assert_eq!(scripts.pre, "./pre_run.sh");
    assert_eq!(scripts.run, "./run.sh");
    assert_eq!(scripts.post, "./post_run.sh");
}

#[test]
fn test_container_new() {
    let container = Container::new("ubuntu:22.04".to_string());
    assert_eq!(container.image, "ubuntu:22.04");
    assert!(!container.use_gpu);
}

#[test]
fn test_container_with_gpu() {
    let container = Container::with_gpu("nvidia/cuda:11.8.0".to_string());
    assert_eq!(container.image, "nvidia/cuda:11.8.0");
    assert!(container.use_gpu);
}

#[test]
fn config_test_error_both_container_types() {
    let r = ConfigContainer::from_fields(
        Some("ubuntu:22.04".to_string()),
        Some("./Dockerfile".to_string()),
    );
    let err = r.unwrap_err();
    assert!(err.contains("cannot have both"));
}

#[test]
fn config_test_error_no_container_type() {
    let err = ConfigContainer::from_fields(None, None).unwrap_err();
    assert!(err.contains("must have either"));
}

#[test]
fn container_from_an_image_or_a_dockerfile() {
    assert_eq!(
        ConfigContainer::from_fields(Some("ubuntu:22.04".to_string()), None).unwrap(),
        ConfigContainer::DockerImage("ubuntu:22.04".to_string())
    );
    assert_eq!(
        ConfigContainer::from_fields(None, Some("./Dockerfile".to_string())).unwrap(),
        ConfigContainer::DockerFile("./Dockerfile".to_string())
    );
}

#[test]
fn config_test_inputs_outputs_depends_on_defaults() {
    let config = JobConfig::from_fields(
        ConfigContainer::DockerImage("ubuntu:22.04".to_string()),
        None,
        None,
        None,
        None,
        None,
    );
    assert!(config.inputs.is_empty());
    assert!(config.outputs.is_empty());
    assert!(config.depends_on.is_empty());
    assert!(!config.use_gpu);
    assert_eq!(config.scripts.run, "./run.sh");
}

#[test]
fn config_test_parse_config_with_all_new_fields() {
    let config = JobConfig::from_fields(
        ConfigContainer::from_fields(Some("ubuntu:22.04".to_string()), None).unwrap(),
        Some(Scripts::from_fields(None, Some("process.sh".to_string()), None)),
        None,
        Some(vec!["*.csv".to_string()]),
        Some(vec!["results/*.json".to_string(), "summary.txt".to_string()]),
        Some(vec!["data_preparation".to_string()]),
    );
    assert_eq!(config.inputs, vec!["*.csv"]);
    assert_eq!(config.outputs, vec!["results/*.json", "summary.txt"]);
    assert_eq!(config.depends_on, vec!["data_preparation"]);
    assert_eq!(config.scripts.run, "process.sh");
}

/// A configuration with an image and the given scripts section, the other
/// fields absent.
fn image_config(image: &str, scripts: Option<Scripts>) -> JobConfig {
    JobConfig::from_fields(
        ConfigContainer::from_fields(Some(image.to_string()), None).unwrap(),
        scripts,
        None,
        None,
        None,
        None,
    )
}

#[test]
fn config_test_parse_config_with_docker_image() {
    let config = image_config(
        "ubuntu:22.04",
        Some(Scripts::from_fields(
            Some("setup.sh".to_string()),
            Some("compute.sh".to_string()),
            Some("cleanup.sh".to_string()),
        )),
    );
    assert_eq!(config.container, ConfigContainer::DockerImage("ubuntu:22.04".to_string()));
    assert_eq!(config.scripts.pre, "setup.sh");
    assert_eq!(config.scripts.run, "compute.sh");
    assert_eq!(config.scripts.post, "cleanup.sh");
}

#[test]
fn config_test_parse_config_with_dockerfile() {
    let config = JobConfig::from_fields(
        ConfigContainer::from_fields(None, Some("./Dockerfile".to_string())).unwrap(),
        Some(Scripts::from_fields(None, Some("execute.sh".to_string()), None)),
        None,
        None,
        None,
        None,
    );
    assert_eq!(config.container, ConfigContainer::DockerFile("./Dockerfile".to_string()));
    assert_eq!(config.scripts.run, "execute.sh");
    assert_eq!(config.scripts.pre, "./pre_run.sh");
    assert_eq!(config.scripts.post, "./post_run.sh");
}

#[test]
fn config_test_parse_config_with_default_scripts() {
    let config = image_config("alpine:latest", None);
    assert_eq!(config.container, ConfigContainer::DockerImage("alpine:latest".to_string()));
    assert_eq!(config.scripts.pre, "./pre_run.sh");
    assert_eq!(config.scripts.run, "./run.sh");
    assert_eq!(config.scripts.post, "./post_run.sh");
}

#[test]
fn config_test_parse_config_with_partial_scripts() {
    let config = image_config(
        "python:3.11",
        Some(Scripts::from_fields(None, Some("main.py".to_string()), None)),
    );
    assert_eq!(config.scripts.pre, "./pre_run.sh");
    assert_eq!(config.scripts.run, "main.py");
    assert_eq!(config.scripts.post, "./post_run.sh");
}

#[test]
fn config_test_gpu_disabled_by_default() {
    let config = image_config("ubuntu:22.04", None);
    assert!(!config.use_gpu);
}

fn gpu_config(image: &str, use_gpu: bool) -> JobConfig {
    JobConfig::from_fields(
        ConfigContainer::from_fields(Some(image.to_string()), None).unwrap(),
        None,
        Some(use_gpu),
        None,
        None,
        None,
    )
}

#[test]
fn config_test_gpu_enabled() {
    let config = gpu_config("nvidia/cuda:11.8.0-base-ubuntu22.04", true);
    assert!(config.use_gpu);
}

#[test]
fn config_test_gpu_explicitly_disabled() {
    let config = gpu_config("ubuntu:22.04", false);
    assert!(!config.use_gpu);
}

fn lists(inputs: &[&str], outputs: &[&str], depends_on: &[&str], image: &str) -> JobConfig {
    let owned = |v: &[&str]| v.iter().map(|s| s.to_string()).collect::<Vec<String>>();
    JobConfig::from_fields(
        ConfigContainer::from_fields(Some(image.to_string()), None).unwrap(),
        None,
        None,
        Some(owned(inputs)),
        Some(owned(outputs)),
        Some(owned(depends_on)),
    )
}

#[test]
fn config_test_parse_config_with_inputs() {
    let config = lists(&["*.csv", "data_*.json"], &[], &[], "ubuntu:22.04");
    assert_eq!(config.inputs.len(), 2);
    assert_eq!(config.inputs[0], "*.csv");
    assert_eq!(config.inputs[1], "data_*.json");
}

#[test]
fn config_test_parse_config_with_outputs() {
    let config = lists(&[], &["results/*.json", "*.png", "report.pdf"], &[], "python:3.11");
    assert_eq!(config.outputs.len(), 3);
    assert_eq!(config.outputs[0], "results/*.json");
    assert_eq!(config.outputs[1], "*.png");
    assert_eq!(config.outputs[2], "report.pdf");
}

#[test]
fn config_test_parse_config_with_depends_on() {
    let config = lists(&[], &[], &["job1", "job2", "preprocessing"], "alpine:latest");
    assert_eq!(config.depends_on.len(), 3);
    assert_eq!(config.depends_on[0], "job1");
    assert_eq!(config.depends_on[1], "job2");
    assert_eq!(config.depends_on[2], "preprocessing");
}

#[test]
fn config_test_empty_inputs_outputs_depends_on() {
    let config = lists(&[], &[], &[], "ubuntu:22.04");
    assert!(config.inputs.is_empty());
    assert!(config.outputs.is_empty());
    assert!(config.depends_on.is_empty());
}

#[test]
fn config_error_messages() {
    assert_eq!(
        JobConfigError::FileNotFound("x.toml".to_string()).message(),
        "Configuration file not found: x.toml"
    );
    assert_eq!(
        JobConfigError::InvalidToml("bad".to_string()).message(),
        "Invalid TOML syntax: bad"
    );
}

#[test]
fn test_workflow_meta_new() {
    let metadata = WorkflowMeta::new("Test Workflow".to_string(), "A test workflow".to_string());
    assert_eq!(metadata.name, "Test Workflow");
    assert_eq!(metadata.description, "A test workflow");
    assert!(metadata.params.is_empty());
    assert!(metadata.dependencies.is_empty());
}

#[test]
fn test_workflow_meta_set_dependencies() {
    let mut metadata = WorkflowMeta::new("Test".to_string(), "Test workflow".to_string());

    metadata.set_job_dependencies("job_2".to_string(), vec!["job_1".to_string()]);
    assert_eq!(metadata.get_job_dependencies("job_2"), &["job_1".to_string()]);
}

#[test]
fn dependencies_read_back_after_a_second_write() {
    let mut metadata = WorkflowMeta::new("Test".to_string(), "Test workflow".to_string());
    metadata.set_job_dependencies("job_2".to_string(), vec!["job_1".to_string()]);
    metadata.set_job_dependencies("job_3".to_string(), vec!["job_2".to_string()]);
    metadata.set_job_dependencies("job_2".to_string(), vec!["job_0".to_string()]);
    assert_eq!(metadata.get_job_dependencies("job_2"), &["job_0".to_string()]);
    assert_eq!(metadata.get_job_dependencies("job_3"), &["job_2".to_string()]);
    assert!(metadata.get_job_dependencies("job_1").is_empty());
}

#[test]
fn param_type_names() {
    assert_eq!(ParamType::String.to_string(), "string");
    assert_eq!(ParamType::Enum.to_string(), "enum");
    assert_eq!(ParamType::Directory.to_string(), "directory");
}

#[test]
fn job_meta_new_has_default_scripts() {
    let meta = JobMeta::new(
        "job".to_string(),
        "desc".to_string(),
        Container::new("alpine:latest".to_string()),
    );
    assert_eq!(meta.scripts.pre, "./pre_run.sh");
    assert!(meta.inputs.is_empty());
    assert!(meta.params.is_empty());
}
