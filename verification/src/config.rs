//! The environment configuration builder: from a step, a project identity and
//! the process-wide settings to the full specification of one execution
//! environment.
//!
//! The build is pure: identical inputs give structurally identical
//! specifications. A missing required setting aborts the whole build with a
//! `ConfigurationError` naming the absent key, before any runtime call could
//! be made; no partial specification is ever produced.

use vstd::prelude::*;
use crate::step::spec_command_tokens;
use crate::step::spec_flags;
use crate::step::StepDefinition;
use crate::step::StepKind;
use crate::step::command_template;
use crate::step::lemma_command_safe_to_tokenize;
use crate::text::has_space;
use crate::text::lemma_has_space_concat;
use crate::text::split_spaces;
use crate::text::views_of;

verus! {

/// The display-safe project token derived from a raw project identity: a
/// fixed prefix keeps the transform deterministic and collision-free.
pub open spec fn spec_project_token(project: Seq<char>) -> Seq<char> {
    "safepkt-"@ + project
}

/// The artifact (bitcode) file name derived from a project identity.
pub open spec fn spec_artifact_name(project: Seq<char>) -> Seq<char> {
    project + ".bc"@
}

/// The environment name derived from a project identity: equal to the project
/// token, so two invocations for the same project target the same name.
pub open spec fn spec_environment_name(project: Seq<char>) -> Seq<char> {
    spec_project_token(project)
}

/// The display-safe project token derived from a raw project identity.
pub fn format_project_name(project: &str) -> (r: String)
    ensures
        r@ == spec_project_token(project@),
{
    let mut token = String::from_str("safepkt-");
    token.append(project);
    token
}

/// The artifact (bitcode) file name derived from a project identity.
pub fn get_bitcode_filename(project: &str) -> (r: String)
    ensures
        r@ == spec_artifact_name(project@),
{
    let mut name = project.to_owned();
    name.append(".bc");
    name
}

/// The environment name derived from a project identity.
pub fn environment_name(project: &str) -> (r: String)
    ensures
        r@ == spec_environment_name(project@),
{
    format_project_name(project)
}

/// A project identity without spaces derives a token, an artifact name and an
/// environment name without spaces.
pub proof fn lemma_derived_names_space_free(project: Seq<char>)
    requires
        !has_space(project),
    ensures
        !has_space(spec_project_token(project)),
        !has_space(spec_artifact_name(project)),
        !has_space(spec_environment_name(project)),
{
    reveal_strlit("safepkt-");
    reveal_strlit(".bc");
    lemma_has_space_concat("safepkt-"@, project);
    lemma_has_space_concat(project, ".bc"@);
}

/// One required process-wide setting.
#[derive(Clone, Copy, PartialEq, Eq, Structural, Debug)]
pub enum SettingKey {
    /// The container image reference the environments run from.
    ContainerImage,
    /// The `uid:gid` string the environment writes files as.
    UidGid,
    /// The host path of the verification toolchain directory.
    ToolchainDirectory,
    /// The host path of the verification script.
    VerificationScript,
    /// The host path of the uploaded-sources listing script.
    ListingScript,
    /// The shared host directory holding the uploaded sources.
    UploadedSourcesDirectory,
    /// The host directory under which per-project trees are scaffolded.
    ScaffoldRoot,
}

/// A required process setting was absent: a deployment problem, surfaced to
/// the caller before any runtime side effect, never silently defaulted.
#[derive(Clone, Copy, PartialEq, Eq, Structural, Debug)]
pub struct ConfigurationError {
    pub missing: SettingKey,
}

/// The process-wide settings, read at build time. `None` marks a setting the
/// process was deployed without.
pub struct ProcessSettings {
    pub container_image: Option<String>,
    pub uid_gid: Option<String>,
    pub toolchain_directory: Option<String>,
    pub verification_script: Option<String>,
    pub listing_script: Option<String>,
    pub uploaded_sources_directory: Option<String>,
    pub scaffold_root: Option<String>,
}

/// The first absent setting, in the fixed order the build reads them.
pub open spec fn spec_first_missing(settings: ProcessSettings) -> Option<SettingKey> {
    if settings.container_image is None {
        Some(SettingKey::ContainerImage)
    } else if settings.uid_gid is None {
        Some(SettingKey::UidGid)
    } else if settings.toolchain_directory is None {
        Some(SettingKey::ToolchainDirectory)
    } else if settings.verification_script is None {
        Some(SettingKey::VerificationScript)
    } else if settings.listing_script is None {
        Some(SettingKey::ListingScript)
    } else if settings.uploaded_sources_directory is None {
        Some(SettingKey::UploadedSourcesDirectory)
    } else if settings.scaffold_root is None {
        Some(SettingKey::ScaffoldRoot)
    } else {
        None
    }
}

/// One host-path-to-container-path binding of an environment.
#[derive(PartialEq, Eq, Clone, Debug)]
pub struct Mount {
    /// The host path made visible inside the environment.
    pub source: String,
    /// The path the host content appears under inside the environment.
    pub target: String,
    /// The binding mode.
    pub mode: String,
}

/// The mathematical value of one mount.
#[verifier::ext_equal]
pub struct MountView {
    pub source: Seq<char>,
    pub target: Seq<char>,
    pub mode: Seq<char>,
}

impl View for Mount {
    type V = MountView;

    open spec fn view(&self) -> MountView {
        MountView { source: self.source@, target: self.target@, mode: self.mode@ }
    }
}

/// The fully resolved configuration of one execution environment. Built
/// fresh for every invocation, never cached or mutated after construction.
#[derive(PartialEq, Eq, Clone, Debug)]
pub struct EnvironmentSpec {
    /// The container image reference.
    pub image: String,
    /// The command, tokenized on single spaces.
    pub command: Vec<String>,
    /// The environment variables, each as one `NAME=value` entry.
    pub environment_variables: Vec<String>,
    /// The mount table, in a fixed order: project source, uploaded sources,
    /// toolchain, listing script, verification script.
    pub mounts: Vec<Mount>,
    /// The working directory inside the environment.
    pub working_directory: String,
    /// The network mode.
    pub network_mode: String,
}

/// The mathematical value of an environment specification.
#[verifier::ext_equal]
pub struct EnvironmentSpecView {
    pub image: Seq<char>,
    pub command: Seq<Seq<char>>,
    pub environment_variables: Seq<Seq<char>>,
    pub mounts: Seq<MountView>,
    pub working_directory: Seq<char>,
    pub network_mode: Seq<char>,
}

impl View for EnvironmentSpec {
    type V = EnvironmentSpecView;

    open spec fn view(&self) -> EnvironmentSpecView {
        EnvironmentSpecView {
            image: self.image@,
            command: views_of(self.command@),
            environment_variables: views_of(self.environment_variables@),
            mounts: self.mounts@.map_values(|m: Mount| m@),
            working_directory: self.working_directory@,
            network_mode: self.network_mode@,
        }
    }
}

/// The per-project host scaffold path: the scaffold root, a separator, then
/// the project token.
pub open spec fn spec_scaffold_path(scaffold_root: Seq<char>, project: Seq<char>) -> Seq<char> {
    scaffold_root + "/"@ + spec_project_token(project)
}

/// The environment specification that a successful build yields.
pub open spec fn spec_built_environment(
    kind: StepKind,
    project: Seq<char>,
    flags: Option<Seq<char>>,
    settings: ProcessSettings,
) -> EnvironmentSpecView {
    EnvironmentSpecView {
        image: settings.container_image->0@,
        command: spec_command_tokens(
            kind,
            spec_project_token(project),
            spec_artifact_name(project),
            flags,
        ),
        environment_variables: seq!["UID_GID="@ + settings.uid_gid->0@],
        mounts: seq![
            MountView {
                source: spec_scaffold_path(settings.scaffold_root->0@, project),
                target: "/safepkt-ink/examples/source"@,
                mode: "bind"@,
            },
            MountView {
                source: settings.uploaded_sources_directory->0@,
                target: "/uploaded-sources"@,
                mode: "bind"@,
            },
            MountView {
                source: settings.toolchain_directory->0@,
                target: "/home/rust-verification-tools"@,
                mode: "bind"@,
            },
            MountView {
                source: settings.listing_script->0@,
                target: "/usr/local/bin/list-uploaded-sources"@,
                mode: "bind"@,
            },
            MountView {
                source: settings.verification_script->0@,
                target: "/usr/local/bin/verify"@,
                mode: "bind"@,
            },
        ],
        working_directory: "/safepkt-ink/examples/source"@,
        network_mode: "host"@,
    }
}

/// What `build` returns: the full specification when every required setting
/// is present, else the first missing key, in the fixed read order.
pub open spec fn spec_build(
    kind: StepKind,
    project: Seq<char>,
    flags: Option<Seq<char>>,
    settings: ProcessSettings,
) -> Result<EnvironmentSpecView, ConfigurationError> {
    match spec_first_missing(settings) {
        Some(key) => Err(ConfigurationError { missing: key }),
        None => Ok(spec_built_environment(kind, project, flags, settings)),
    }
}

/// The mathematical value of a build result.
pub open spec fn spec_build_result(
    r: Result<EnvironmentSpec, ConfigurationError>,
) -> Result<EnvironmentSpecView, ConfigurationError> {
    match r {
        Ok(s) => Ok(s@),
        Err(e) => Err(e),
    }
}

/// Every specification a complete build yields carries the full mount table,
/// in its fixed order: the per-project source tree, the shared uploaded
/// sources, the toolchain, the listing script and the verification script —
/// omitting any would be a configuration fault, not a runtime one. The
/// working directory is the mounted source tree, and the environment needs
/// host-level network reachability.
pub proof fn lemma_mount_table_complete(
    kind: StepKind,
    project: Seq<char>,
    flags: Option<Seq<char>>,
    settings: ProcessSettings,
)
    requires
        spec_first_missing(settings) is None,
    ensures
        ({
            let built = spec_built_environment(kind, project, flags, settings);
            &&& built.mounts.len() == 5
            &&& built.mounts[0].source == spec_scaffold_path(settings.scaffold_root->0@, project)
            &&& built.mounts[0].target == "/safepkt-ink/examples/source"@
            &&& built.mounts[1].source == settings.uploaded_sources_directory->0@
            &&& built.mounts[1].target == "/uploaded-sources"@
            &&& built.mounts[2].source == settings.toolchain_directory->0@
            &&& built.mounts[2].target == "/home/rust-verification-tools"@
            &&& built.mounts[3].source == settings.listing_script->0@
            &&& built.mounts[3].target == "/usr/local/bin/list-uploaded-sources"@
            &&& built.mounts[4].source == settings.verification_script->0@
            &&& built.mounts[4].target == "/usr/local/bin/verify"@
            &&& built.working_directory == built.mounts[0].target
            &&& built.network_mode == "host"@
            &&& built.environment_variables == seq!["UID_GID="@ + settings.uid_gid->0@]
        }),
{
}

/// Construction of an environment configuration is idempotent: two builds
/// from identical inputs yield structurally identical specifications.
pub proof fn lemma_build_deterministic(
    a: Result<EnvironmentSpecView, ConfigurationError>,
    b: Result<EnvironmentSpecView, ConfigurationError>,
    kind: StepKind,
    project: Seq<char>,
    flags: Option<Seq<char>>,
    settings: ProcessSettings,
)
    requires
        a == spec_build(kind, project, flags, settings),
        b == spec_build(kind, project, flags, settings),
    ensures
        a == b,
{
}

/// Builds the full environment specification for one step of one project:
/// resolves the project token and artifact name, renders and tokenizes the
/// step's command, and assembles the mount table, working directory,
/// environment variables and network mode.
pub fn build(
    step: &StepDefinition,
    project: &str,
    flags: Option<&str>,
    settings: &ProcessSettings,
) -> (r: Result<EnvironmentSpec, ConfigurationError>)
    requires
        !has_space(project@),
        flags matches Some(f) ==> !has_space(f@),
    ensures
        spec_build_result(r) == spec_build(step.kind, project@, spec_flags(flags), *settings),
{
    let image = match &settings.container_image {
        Some(v) => v,
        None => {
            return Err(ConfigurationError { missing: SettingKey::ContainerImage });
        },
    };
    let uid_gid = match &settings.uid_gid {
        Some(v) => v,
        None => {
            return Err(ConfigurationError { missing: SettingKey::UidGid });
        },
    };
    let toolchain = match &settings.toolchain_directory {
        Some(v) => v,
        None => {
            return Err(ConfigurationError { missing: SettingKey::ToolchainDirectory });
        },
    };
    let verification_script = match &settings.verification_script {
        Some(v) => v,
        None => {
            return Err(ConfigurationError { missing: SettingKey::VerificationScript });
        },
    };
    let listing_script = match &settings.listing_script {
        Some(v) => v,
        None => {
            return Err(ConfigurationError { missing: SettingKey::ListingScript });
        },
    };
    let uploaded_sources = match &settings.uploaded_sources_directory {
        Some(v) => v,
        None => {
            return Err(ConfigurationError { missing: SettingKey::UploadedSourcesDirectory });
        },
    };
    let scaffold_root = match &settings.scaffold_root {
        Some(v) => v,
        None => {
            return Err(ConfigurationError { missing: SettingKey::ScaffoldRoot });
        },
    };

    let token = format_project_name(project);
    let artifact = get_bitcode_filename(project);
    let command = command_template(step, token.as_str(), artifact.as_str(), flags);
    let command_parts = split_spaces(command.as_str());
    proof {
        lemma_derived_names_space_free(project@);
        lemma_command_safe_to_tokenize(
            step.kind,
            spec_project_token(project@),
            spec_artifact_name(project@),
            spec_flags(flags),
        );
    }

    let mut uid_gid_entry = String::from_str("UID_GID=");
    uid_gid_entry.append(uid_gid.as_str());
    let mut environment_variables: Vec<String> = Vec::new();
    environment_variables.push(uid_gid_entry);

    let mut scaffold_path = scaffold_root.clone();
    scaffold_path.append("/");
    scaffold_path.append(token.as_str());

    let mut mounts: Vec<Mount> = Vec::new();
    mounts.push(Mount {
        source: scaffold_path,
        target: String::from_str("/safepkt-ink/examples/source"),
        mode: String::from_str("bind"),
    });
    mounts.push(Mount {
        source: uploaded_sources.clone(),
        target: String::from_str("/uploaded-sources"),
        mode: String::from_str("bind"),
    });
    mounts.push(Mount {
        source: toolchain.clone(),
        target: String::from_str("/home/rust-verification-tools"),
        mode: String::from_str("bind"),
    });
    mounts.push(Mount {
        source: listing_script.clone(),
        target: String::from_str("/usr/local/bin/list-uploaded-sources"),
        mode: String::from_str("bind"),
    });
    mounts.push(Mount {
        source: verification_script.clone(),
        target: String::from_str("/usr/local/bin/verify"),
        mode: String::from_str("bind"),
    });

    let built = EnvironmentSpec {
        image: image.clone(),
        command: command_parts,
        environment_variables,
        mounts,
        working_directory: String::from_str("/safepkt-ink/examples/source"),
        network_mode: String::from_str("host"),
    };
    proof {
        assert(built@ =~~= spec_built_environment(
            step.kind,
            project@,
            spec_flags(flags),
            *settings,
        ));
    }
    Ok(built)
}

} // verus!
