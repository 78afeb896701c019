use verification_runtime::client::EnvironmentClient;
use verification_runtime::config::build;
use verification_runtime::config::environment_name;
use verification_runtime::config::ProcessSettings;
use verification_runtime::config::SettingKey;
use verification_runtime::lifecycle::get_logs;
use verification_runtime::lifecycle::get_status;
use verification_runtime::lifecycle::run_step;
use verification_runtime::lifecycle::stop_step;
use verification_runtime::lifecycle::LogsError;
use verification_runtime::lifecycle::RunStepError;
use verification_runtime::lifecycle::StatusToken;
use verification_runtime::lifecycle::StepInvocation;
use verification_runtime::memory::InMemoryEnvironmentClient;
use verification_runtime::step::llvm_bitcode_generation_cmd_provider;
use verification_runtime::step::program_verification_cmd_provider;

fn full_settings() -> ProcessSettings {
    ProcessSettings {
        container_image: Some(String::from("toolchain-image:latest")),
        uid_gid: Some(String::from("1000:1000")),
        toolchain_directory: Some(String::from("/opt/toolchain")),
        verification_script: Some(String::from("/opt/scripts/verify")),
        listing_script: Some(String::from("/opt/scripts/list-uploaded-sources")),
        uploaded_sources_directory: Some(String::from("/var/uploads")),
        scaffold_root: Some(String::from("/var/scaffold")),
    }
}

fn invocation() -> StepInvocation {
    StepInvocation {
        step: llvm_bitcode_generation_cmd_provider(),
        project_id: String::from("abc123"),
        flags: None,
    }
}

#[test]
fn status_of_a_never_started_project_is_not_found() {
    let client = InMemoryEnvironmentClient::new();
    assert_eq!(get_status(&client, "abc123"), Ok(StatusToken::NotFound));
}

#[test]
fn run_step_starts_a_fresh_environment_when_none_exists() {
    let mut client = InMemoryEnvironmentClient::new();
    let outcome = run_step(&mut client, &invocation(), &full_settings());
    assert!(outcome.is_ok());
    assert_eq!(get_status(&client, "abc123"), Ok(StatusToken::Running));
}

#[test]
fn run_step_twice_leaves_exactly_one_running_environment() {
    let mut client = InMemoryEnvironmentClient::new();
    assert!(run_step(&mut client, &invocation(), &full_settings()).is_ok());
    assert!(run_step(&mut client, &invocation(), &full_settings()).is_ok());

    let name = environment_name("abc123");
    assert!(client.environment_exists(&name));
    assert_eq!(get_status(&client, "abc123"), Ok(StatusToken::Running));

    // One removal suffices: nothing else bears the name afterwards.
    assert!(client.remove(&name).is_ok());
    assert!(!client.environment_exists(&name));
    assert_eq!(get_status(&client, "abc123"), Ok(StatusToken::NotFound));
}

#[test]
fn run_step_replaces_a_stopped_environment() {
    let mut client = InMemoryEnvironmentClient::new();
    assert!(run_step(&mut client, &invocation(), &full_settings()).is_ok());
    assert!(stop_step(&mut client, "abc123").is_ok());
    assert_eq!(get_status(&client, "abc123"), Ok(StatusToken::Stopped));

    assert!(run_step(&mut client, &invocation(), &full_settings()).is_ok());
    assert_eq!(get_status(&client, "abc123"), Ok(StatusToken::Running));
}

#[test]
fn run_step_with_a_missing_setting_changes_nothing() {
    let mut client = InMemoryEnvironmentClient::new();
    let mut settings = full_settings();
    settings.uid_gid = None;
    let outcome = run_step(&mut client, &invocation(), &settings);
    match outcome {
        Err(RunStepError::Configuration(e)) => assert_eq!(e.missing, SettingKey::UidGid),
        other => panic!("expected a configuration error, got {:?}", other),
    }
    assert_eq!(get_status(&client, "abc123"), Ok(StatusToken::NotFound));
}

#[test]
fn stopping_a_never_started_project_is_an_error() {
    let mut client = InMemoryEnvironmentClient::new();
    assert!(stop_step(&mut client, "abc123").is_err());
}

#[test]
fn logs_of_a_never_started_project_are_not_found() {
    let client = InMemoryEnvironmentClient::new();
    assert_eq!(get_logs(&client, "abc123"), Err(LogsError::NotFound));
}

#[test]
fn logs_of_a_fresh_environment_are_empty() {
    let mut client = InMemoryEnvironmentClient::new();
    assert!(run_step(&mut client, &invocation(), &full_settings()).is_ok());
    assert_eq!(get_logs(&client, "abc123"), Ok(String::new()));
}

#[test]
fn creation_under_a_taken_name_fails() {
    let mut client = InMemoryEnvironmentClient::new();
    let step = program_verification_cmd_provider();
    let spec = build(&step, "abc123", None, &full_settings()).unwrap();
    let other = build(&step, "abc123", Some("--flag"), &full_settings()).unwrap();
    let name = environment_name("abc123");
    assert!(client.create_and_name(spec, &name).is_ok());
    assert!(client.create_and_name(other, &name).is_err());
    assert_eq!(get_status(&client, "abc123"), Ok(StatusToken::Created));
}

#[test]
fn different_projects_run_independently() {
    let mut client = InMemoryEnvironmentClient::new();
    let first = invocation();
    let second = StepInvocation {
        step: program_verification_cmd_provider(),
        project_id: String::from("def456"),
        flags: Some(String::from("--flag")),
    };
    assert!(run_step(&mut client, &first, &full_settings()).is_ok());
    assert!(run_step(&mut client, &second, &full_settings()).is_ok());
    assert!(stop_step(&mut client, "abc123").is_ok());
    assert_eq!(get_status(&client, "abc123"), Ok(StatusToken::Stopped));
    assert_eq!(get_status(&client, "def456"), Ok(StatusToken::Running));
}
