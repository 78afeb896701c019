use verification_runtime::config::build;
use verification_runtime::config::environment_name;
use verification_runtime::config::format_project_name;
use verification_runtime::config::get_bitcode_filename;
use verification_runtime::config::ConfigurationError;
use verification_runtime::config::ProcessSettings;
use verification_runtime::config::SettingKey;
use verification_runtime::step::program_verification_cmd_provider;
use verification_runtime::step::uploaded_sources_listing_cmd_provider;

fn full_settings() -> ProcessSettings {
    ProcessSettings {
        container_image: Some(String::from("toolchain-image:latest")),
        uid_gid: Some(String::from("1000:1000")),
        toolchain_directory: Some(String::from("/opt/toolchain")),
        verification_script: Some(String::from("/opt/scripts/verify")),
        listing_script: Some(String::from("/opt/scripts/list-uploaded-sources")),
        uploaded_sources_directory: Some(String::from("/var/uploads")),
        scaffold_root: Some(String::from("/var/scaffold")),
    }
}

#[test]
fn derived_names_are_deterministic_and_prefixed() {
    assert_eq!(format_project_name("abc123"), "safepkt-abc123");
    assert_eq!(get_bitcode_filename("abc123"), "abc123.bc");
    assert_eq!(environment_name("abc123"), "safepkt-abc123");
}

#[test]
fn build_assembles_the_full_specification() {
    let step = program_verification_cmd_provider();
    let spec = build(&step, "abc123", None, &full_settings()).unwrap();

    assert_eq!(spec.image, "toolchain-image:latest");
    assert_eq!(
        spec.command,
        vec![
            String::from("/usr/local/bin/verify"),
            String::from("safepkt-abc123"),
            String::from("abc123.bc"),
            String::from("multisig_plain"),
            String::from(""),
            String::from(""),
        ]
    );
    assert_eq!(spec.environment_variables, vec![String::from("UID_GID=1000:1000")]);
    assert_eq!(spec.working_directory, "/safepkt-ink/examples/source");
    assert_eq!(spec.network_mode, "host");

    assert_eq!(spec.mounts.len(), 5);
    let sources: Vec<&str> = spec.mounts.iter().map(|m| m.source.as_str()).collect();
    let targets: Vec<&str> = spec.mounts.iter().map(|m| m.target.as_str()).collect();
    assert_eq!(
        sources,
        vec![
            "/var/scaffold/safepkt-abc123",
            "/var/uploads",
            "/opt/toolchain",
            "/opt/scripts/list-uploaded-sources",
            "/opt/scripts/verify",
        ]
    );
    assert_eq!(
        targets,
        vec![
            "/safepkt-ink/examples/source",
            "/uploaded-sources",
            "/home/rust-verification-tools",
            "/usr/local/bin/list-uploaded-sources",
            "/usr/local/bin/verify",
        ]
    );
    for mount in &spec.mounts {
        assert_eq!(mount.mode, "bind");
    }
}

#[test]
fn build_is_pure_for_identical_inputs() {
    let step = program_verification_cmd_provider();
    let settings = full_settings();
    let first = build(&step, "abc123", Some("--flag"), &settings).unwrap();
    let second = build(&step, "abc123", Some("--flag"), &settings).unwrap();
    assert_eq!(first, second);
}

#[test]
fn build_reports_the_first_missing_setting() {
    let step = uploaded_sources_listing_cmd_provider();

    let mut settings = full_settings();
    settings.container_image = None;
    assert_eq!(
        build(&step, "abc123", None, &settings),
        Err(ConfigurationError { missing: SettingKey::ContainerImage })
    );

    let mut settings = full_settings();
    settings.uid_gid = None;
    assert_eq!(
        build(&step, "abc123", None, &settings),
        Err(ConfigurationError { missing: SettingKey::UidGid })
    );

    let mut settings = full_settings();
    settings.toolchain_directory = None;
    assert_eq!(
        build(&step, "abc123", None, &settings),
        Err(ConfigurationError { missing: SettingKey::ToolchainDirectory })
    );

    let mut settings = full_settings();
    settings.verification_script = None;
    assert_eq!(
        build(&step, "abc123", None, &settings),
        Err(ConfigurationError { missing: SettingKey::VerificationScript })
    );

    let mut settings = full_settings();
    settings.listing_script = None;
    assert_eq!(
        build(&step, "abc123", None, &settings),
        Err(ConfigurationError { missing: SettingKey::ListingScript })
    );

    let mut settings = full_settings();
    settings.uploaded_sources_directory = None;
    assert_eq!(
        build(&step, "abc123", None, &settings),
        Err(ConfigurationError { missing: SettingKey::UploadedSourcesDirectory })
    );

    let mut settings = full_settings();
    settings.scaffold_root = None;
    assert_eq!(
        build(&step, "abc123", None, &settings),
        Err(ConfigurationError { missing: SettingKey::ScaffoldRoot })
    );

    let mut settings = full_settings();
    settings.container_image = None;
    settings.scaffold_root = None;
    assert_eq!(
        build(&step, "abc123", None, &settings),
        Err(ConfigurationError { missing: SettingKey::ContainerImage })
    );
}
