//! The lifecycle orchestrator and the status/log inspectors.
//!
//! `run_step` drives one step of one project: it builds a fresh configuration
//! (a configuration error aborts before any runtime side effect), derives the
//! environment name from the project identity, removes any stale environment
//! under that name, then creates and starts a fresh one. It
//! returns once the start succeeds; it never blocks for completion, never
//! retries, and surfaces the first failure with the step, the project and the
//! sub-operation that failed. The inspectors answer status and log queries
//! independently of any lifecycle in flight, with a `NotFound` outcome that
//! is distinct from every runtime error.

use vstd::prelude::*;
use crate::client::EnvironmentClient;
use crate::client::EnvironmentRecord;
use crate::client::RunState;
use crate::client::RuntimeApiError;
use crate::config::ConfigurationError;
use crate::config::EnvironmentSpec;
use crate::config::ProcessSettings;
use crate::config::build;
use crate::config::environment_name;
use crate::config::spec_built_environment;
use crate::config::spec_environment_name;
use crate::config::spec_first_missing;
use crate::step::StepDefinition;
use crate::step::StepKind;
use crate::text::has_space;

verus! {

/// One step to run against one project, with optional flags: created per
/// request and consumed by one orchestration call.
pub struct StepInvocation {
    pub step: StepDefinition,
    pub project_id: String,
    pub flags: Option<String>,
}

impl StepInvocation {
    /// The view of the optional flags.
    pub open spec fn spec_flags(&self) -> Option<Seq<char>> {
        match self.flags {
            Some(f) => Some(f@),
            None => None,
        }
    }

    /// A well-formed invocation: a catalog-made step definition, and a
    /// project identity and flags without spaces (the documented limitation
    /// of the space-joined command format).
    pub open spec fn wf(&self) -> bool {
        &&& self.step.wf()
        &&& !has_space(self.project_id@)
        &&& (self.flags matches Some(f) ==> !has_space(f@))
    }
}

/// The sub-operation of the lifecycle at which a runtime failure surfaced.
#[derive(Clone, Copy, PartialEq, Eq, Structural, Debug)]
pub enum LifecycleOp {
    Remove,
    Create,
    Start,
}

/// Why one orchestration call failed. A configuration error precedes every
/// runtime side effect; a runtime error carries the step, the project and
/// the sub-operation it surfaced at.
#[derive(Clone, PartialEq, Eq, Debug)]
pub enum RunStepError {
    Configuration(ConfigurationError),
    Runtime { step: StepKind, project: String, op: LifecycleOp, cause: RuntimeApiError },
}

/// The record an environment bears right after a successful start: running,
/// freshly built configuration, no log output yet.
pub open spec fn spec_running_record(
    kind: StepKind,
    project: Seq<char>,
    flags: Option<Seq<char>>,
    settings: ProcessSettings,
) -> EnvironmentRecord {
    EnvironmentRecord {
        state: RunState::Running,
        config: spec_built_environment(kind, project, flags, settings),
        logs: Seq::empty(),
    }
}

/// The record an environment bears right after creation, before its start.
pub open spec fn spec_created_record(
    kind: StepKind,
    project: Seq<char>,
    flags: Option<Seq<char>>,
    settings: ProcessSettings,
) -> EnvironmentRecord {
    EnvironmentRecord {
        state: RunState::Created,
        config: spec_built_environment(kind, project, flags, settings),
        logs: Seq::empty(),
    }
}

/// Builds the environment configuration for one invocation, then creates and
/// starts an environment of the given name from it. No pre-removal happens
/// here: creation under a taken name fails.
pub fn start_container<C: EnvironmentClient>(
    client: &mut C,
    container_name: &String,
    invocation: &StepInvocation,
    settings: &ProcessSettings,
) -> (r: Result<(), RunStepError>)
    requires
        invocation.wf(),
    ensures
        r is Ok ==> spec_first_missing(*settings) is None && !old(client).model().contains_key(
            container_name@,
        ) && final(client).model() == old(client).model().insert(
            container_name@,
            spec_running_record(
                invocation.step.kind,
                invocation.project_id@,
                invocation.spec_flags(),
                *settings,
            ),
        ),
        spec_first_missing(*settings) matches Some(key) ==> r == Err::<(), RunStepError>(
            RunStepError::Configuration(ConfigurationError { missing: key }),
        ) && final(client).model() == old(client).model(),
        r matches Err(RunStepError::Configuration(e)) ==> Some(e.missing) == spec_first_missing(
            *settings,
        ) && final(client).model() == old(client).model(),
        r matches Err(RunStepError::Runtime { step, project, op, .. }) ==> {
            &&& spec_first_missing(*settings) is None
            &&& step == invocation.step.kind
            &&& project@ == invocation.project_id@
            &&& (op == LifecycleOp::Create || op == LifecycleOp::Start)
            &&& (op == LifecycleOp::Create ==> final(client).model() == old(client).model())
            &&& (op == LifecycleOp::Start ==> final(client).model() == old(client).model().insert(
                container_name@,
                spec_created_record(
                    invocation.step.kind,
                    invocation.project_id@,
                    invocation.spec_flags(),
                    *settings,
                ),
            ))
        },
{
    let flags = match &invocation.flags {
        Some(f) => Some(f.as_str()),
        None => None,
    };
    let configuration = match build(
        &invocation.step,
        invocation.project_id.as_str(),
        flags,
        settings,
    ) {
        Ok(c) => c,
        Err(e) => {
            return Err(RunStepError::Configuration(e));
        },
    };
    create_and_start(client, container_name, invocation, configuration)
}

/// Creates an environment of the given name from an already-built
/// configuration, then starts it; failures carry the invocation's step and
/// project and the sub-operation that failed.
fn create_and_start<C: EnvironmentClient>(
    client: &mut C,
    container_name: &String,
    invocation: &StepInvocation,
    configuration: EnvironmentSpec,
) -> (r: Result<(), RunStepError>)
    ensures
        r is Ok ==> !old(client).model().contains_key(container_name@) && final(client).model()
            == old(client).model().insert(
            container_name@,
            EnvironmentRecord {
                state: RunState::Running,
                config: configuration@,
                logs: Seq::empty(),
            },
        ),
        r matches Err(RunStepError::Runtime { step, project, op, .. }) ==> {
            &&& step == invocation.step.kind
            &&& project@ == invocation.project_id@
            &&& (op == LifecycleOp::Create || op == LifecycleOp::Start)
            &&& (op == LifecycleOp::Create ==> final(client).model() == old(client).model())
            &&& (op == LifecycleOp::Start ==> final(client).model() == old(client).model().insert(
                container_name@,
                EnvironmentRecord {
                    state: RunState::Created,
                    config: configuration@,
                    logs: Seq::empty(),
                },
            ))
        },
        !(r matches Err(RunStepError::Configuration(..))),
{
    let ghost config_view = configuration@;
    match client.create_and_name(configuration, container_name) {
        Ok(_) => {},
        Err(cause) => {
            return Err(
                RunStepError::Runtime {
                    step: invocation.step.kind,
                    project: invocation.project_id.clone(),
                    op: LifecycleOp::Create,
                    cause,
                },
            );
        },
    }
    let ghost after_create = client.model();
    match client.start(container_name) {
        Ok(_) => {
            proof {
                assert(after_create.insert(
                    container_name@,
                    EnvironmentRecord {
                        state: RunState::Running,
                        ..after_create[container_name@]
                    },
                ) =~= old(client).model().insert(
                    container_name@,
                    EnvironmentRecord {
                        state: RunState::Running,
                        config: config_view,
                        logs: Seq::empty(),
                    },
                ));
            }
            Ok(())
        },
        Err(cause) => Err(
            RunStepError::Runtime {
                step: invocation.step.kind,
                project: invocation.project_id.clone(),
                op: LifecycleOp::Start,
                cause,
            },
        ),
    }
}

/// Runs one step for one project: builds the configuration, derives the
/// environment name, removes any pre-existing environment of that name
/// (absence is not an error), then creates and starts a fresh one. A
/// configuration error surfaces before any runtime side effect. On success
/// exactly the project's
/// environment changed: it exists, runs the freshly built configuration, and
/// whatever bore the name before is gone. Returns once the start succeeded;
/// completion is observed through the inspectors.
pub fn run_step<C: EnvironmentClient>(
    client: &mut C,
    invocation: &StepInvocation,
    settings: &ProcessSettings,
) -> (r: Result<(), RunStepError>)
    requires
        invocation.wf(),
    ensures
        ({
            let name = spec_environment_name(invocation.project_id@);
            let running = spec_running_record(
                invocation.step.kind,
                invocation.project_id@,
                invocation.spec_flags(),
                *settings,
            );
            let created = spec_created_record(
                invocation.step.kind,
                invocation.project_id@,
                invocation.spec_flags(),
                *settings,
            );
            &&& (r is Ok ==> spec_first_missing(*settings) is None && final(client).model()
                == old(client).model().insert(name, running))
            &&& (spec_first_missing(*settings) matches Some(key) ==> r == Err::<
                (),
                RunStepError,
            >(RunStepError::Configuration(ConfigurationError { missing: key }))
                && final(client).model() == old(client).model())
            &&& (r matches Err(RunStepError::Configuration(e)) ==> Some(e.missing)
                == spec_first_missing(*settings) && final(client).model() == old(client).model())
            &&& (r matches Err(RunStepError::Runtime { step, project, op, .. }) ==> {
                &&& spec_first_missing(*settings) is None
                &&& step == invocation.step.kind
                &&& project@ == invocation.project_id@
                &&& (op == LifecycleOp::Remove ==> final(client).model() == old(client).model())
                &&& (op == LifecycleOp::Create ==> final(client).model()
                    == old(client).model().remove(name))
                &&& (op == LifecycleOp::Start ==> final(client).model()
                    == old(client).model().remove(name).insert(name, created))
            })
            &&& (!old(client).model().contains_key(name) ==> !(r matches Err(
                RunStepError::Runtime { op: LifecycleOp::Remove, .. },
            )))
            &&& final(client).model().remove(name) =~= old(client).model().remove(name)
        }),
{
    let flags = match &invocation.flags {
        Some(f) => Some(f.as_str()),
        None => None,
    };
    let configuration = match build(
        &invocation.step,
        invocation.project_id.as_str(),
        flags,
        settings,
    ) {
        Ok(c) => c,
        Err(e) => {
            return Err(RunStepError::Configuration(e));
        },
    };
    let name = environment_name(invocation.project_id.as_str());
    let ghost initial = client.model();
    if client.environment_exists(&name) {
        match client.remove(&name) {
            Ok(_) => {},
            Err(cause) => {
                return Err(
                    RunStepError::Runtime {
                        step: invocation.step.kind,
                        project: invocation.project_id.clone(),
                        op: LifecycleOp::Remove,
                        cause,
                    },
                );
            },
        }
    } else {
        proof {
            assert(initial.remove(name@) =~= initial);
        }
    }
    let ghost removed = client.model();
    let r = create_and_start(client, &name, invocation, configuration);
    proof {
        let running = spec_running_record(
            invocation.step.kind,
            invocation.project_id@,
            invocation.spec_flags(),
            *settings,
        );
        let created = spec_created_record(
            invocation.step.kind,
            invocation.project_id@,
            invocation.spec_flags(),
            *settings,
        );
        if r is Ok {
            assert(removed.insert(name@, running) =~= initial.insert(name@, running));
        }
        if r matches Err(RunStepError::Runtime { op, .. }) && op == LifecycleOp::Start {
            assert(removed.insert(name@, created) =~= initial.remove(name@).insert(
                name@,
                created,
            ));
        }
        assert(client.model().remove(name@) =~= initial.remove(name@));
    }
    r
}

/// Two orchestration calls in sequence on the same name leave exactly what
/// the second one put there: the name maps to the second record, every other
/// name is untouched, and the name exists exactly once in the model's domain.
/// Replacement, not accumulation, also under repetition.
pub proof fn lemma_run_step_idempotent_by_replacement(
    m0: Map<Seq<char>, EnvironmentRecord>,
    m1: Map<Seq<char>, EnvironmentRecord>,
    m2: Map<Seq<char>, EnvironmentRecord>,
    name: Seq<char>,
    first: EnvironmentRecord,
    second: EnvironmentRecord,
)
    requires
        m1 == m0.insert(name, first),
        m2 == m1.insert(name, second),
    ensures
        m2 == m0.insert(name, second),
        m2.contains_key(name),
        m2[name] == second,
        m2.dom() == m0.dom().insert(name),
{
    assert(m2 =~= m0.insert(name, second));
    assert(m2.dom() =~= m0.dom().insert(name));
}

/// Stops the environment of the given name. Stopping an absent name is an
/// error, surfaced, not swallowed; the request is acknowledged once the
/// runtime accepts it, not once the environment has fully exited.
pub fn stop_container<C: EnvironmentClient>(client: &mut C, container_name: &String) -> (r: Result<
    (),
    RuntimeApiError,
>)
    ensures
        r is Ok ==> old(client).model().contains_key(container_name@) && final(client).model()
            == old(client).model().insert(
            container_name@,
            EnvironmentRecord {
                state: RunState::Stopped,
                ..old(client).model()[container_name@]
            },
        ),
        r is Err ==> final(client).model() == old(client).model(),
        !old(client).model().contains_key(container_name@) ==> r is Err,
{
    client.stop(container_name)
}

/// Stops the environment of one project, resolving its derived name first.
pub fn stop_step<C: EnvironmentClient>(client: &mut C, project: &str) -> (r: Result<
    (),
    RuntimeApiError,
>)
    ensures
        r is Ok ==> old(client).model().contains_key(spec_environment_name(project@))
            && final(client).model() == old(client).model().insert(
            spec_environment_name(project@),
            EnvironmentRecord {
                state: RunState::Stopped,
                ..old(client).model()[spec_environment_name(project@)]
            },
        ),
        r is Err ==> final(client).model() == old(client).model(),
        !old(client).model().contains_key(spec_environment_name(project@)) ==> r is Err,
{
    let name = environment_name(project);
    stop_container(client, &name)
}

/// An environment's run state as an opaque status token. `NotFound` is a
/// status of its own, never an error: a caller can tell "never started" from
/// "runtime unreachable".
#[derive(Clone, Copy, PartialEq, Eq, Structural, Debug)]
pub enum StatusToken {
    NotFound,
    Created,
    Running,
    Stopped,
    Exited(i64),
}

/// The status token of a run state.
pub open spec fn spec_status_of(state: RunState) -> StatusToken {
    match state {
        RunState::Created => StatusToken::Created,
        RunState::Running => StatusToken::Running,
        RunState::Stopped => StatusToken::Stopped,
        RunState::Exited(code) => StatusToken::Exited(code),
    }
}

/// The status token of a run state.
pub fn status_of(state: RunState) -> (r: StatusToken)
    ensures
        r == spec_status_of(state),
{
    match state {
        RunState::Created => StatusToken::Created,
        RunState::Running => StatusToken::Running,
        RunState::Stopped => StatusToken::Stopped,
        RunState::Exited(code) => StatusToken::Exited(code),
    }
}

/// The status of one project's environment. A project that was never started
/// (no environment bears its name) gets `NotFound`, never an error; an error
/// means the runtime failed on an environment that does exist.
pub fn get_status<C: EnvironmentClient>(client: &C, project: &str) -> (r: Result<
    StatusToken,
    RuntimeApiError,
>)
    ensures
        !client.model().contains_key(spec_environment_name(project@)) ==> r == Ok::<
            StatusToken,
            RuntimeApiError,
        >(StatusToken::NotFound),
        client.model().contains_key(spec_environment_name(project@)) ==> (r matches Ok(token)
            ==> token == spec_status_of(client.model()[spec_environment_name(project@)].state)
            && token != StatusToken::NotFound),
        r is Err ==> client.model().contains_key(spec_environment_name(project@)),
{
    let name = environment_name(project);
    if !client.environment_exists(&name) {
        return Ok(StatusToken::NotFound);
    }
    match client.inspect_status(&name) {
        Ok(state) => Ok(status_of(state)),
        Err(cause) => Err(cause),
    }
}

/// Why a log query failed: the project's environment does not exist, or the
/// runtime API failed.
#[derive(Clone, PartialEq, Eq, Debug)]
pub enum LogsError {
    NotFound,
    Api(RuntimeApiError),
}

/// The log output of one project's environment, accumulated as of the call
/// (not a live stream; callers poll). A project that was never started gets
/// `NotFound`, distinct from every runtime failure.
pub fn get_logs<C: EnvironmentClient>(client: &C, project: &str) -> (r: Result<String, LogsError>)
    ensures
        !client.model().contains_key(spec_environment_name(project@)) ==> r == Err::<
            String,
            LogsError,
        >(LogsError::NotFound),
        r matches Ok(logs) ==> client.model().contains_key(spec_environment_name(project@))
            && logs@ == client.model()[spec_environment_name(project@)].logs,
        r matches Err(LogsError::Api(..)) ==> client.model().contains_key(
            spec_environment_name(project@),
        ),
{
    let name = environment_name(project);
    if !client.environment_exists(&name) {
        return Err(LogsError::NotFound);
    }
    match client.tail_logs(&name) {
        Ok(logs) => Ok(logs),
        Err(cause) => Err(LogsError::Api(cause)),
    }
}

} // verus!
