//! The execution environment client: a capability interface around a
//! container-runtime API, keyed by explicit environment names.
//!
//! The interface is a trait so that the lifecycle orchestrator and the
//! inspectors never depend on a concrete runtime technology: one
//! implementation binds a real container runtime, another is an in-memory
//! double for tests. Each operation's contract is stated against the client's
//! model, a map from environment name to the environment's record.

use vstd::prelude::*;
use crate::config::EnvironmentSpec;
use crate::config::EnvironmentSpecView;

verus! {

/// The run state of an existing environment.
#[derive(Clone, Copy, PartialEq, Eq, Structural, Debug)]
pub enum RunState {
    /// Created but not yet started.
    Created,
    /// Started and not yet stopped or exited.
    Running,
    /// Stopped by an explicit stop request.
    Stopped,
    /// Ran to completion with the given exit code.
    Exited(i64),
}

/// The failure of the underlying runtime API, surfaced verbatim to callers;
/// never retried by the runtime itself.
#[derive(Clone, PartialEq, Eq, Debug)]
pub struct RuntimeApiError {
    pub message: String,
}

/// The record the model keeps of one existing environment.
#[verifier::ext_equal]
pub struct EnvironmentRecord {
    /// Its run state.
    pub state: RunState,
    /// The specification it was created from.
    pub config: EnvironmentSpecView,
    /// Its accumulated log output.
    pub logs: Seq<char>,
}

/// A capability interface around a container-runtime API. Every operation is
/// keyed by an explicit environment name; the client owns no state of its
/// own beyond what the runtime holds, and its model maps each existing
/// environment's name to that environment's record.
pub trait EnvironmentClient: Sized {
    /// Each existing environment's name, mapped to its record. The default
    /// is the empty model; an implementation verified in this crate overrides
    /// it with its own representation's model.
    open spec fn model(&self) -> Map<Seq<char>, EnvironmentRecord> {
        Map::empty()
    }

    /// Whether an environment named `name` exists.
    fn environment_exists(&self, name: &String) -> (r: bool)
        ensures
            r == self.model().contains_key(name@),
    ;

    /// Creates a fresh environment under `name` from `config`. On success the
    /// environment exists in the `Created` state with empty logs; creation
    /// under a taken name fails; a failed creation creates nothing.
    fn create_and_name(&mut self, config: EnvironmentSpec, name: &String) -> (r: Result<
        (),
        RuntimeApiError,
    >)
        ensures
            r is Ok ==> !old(self).model().contains_key(name@) && final(self).model()
                == old(self).model().insert(
                name@,
                EnvironmentRecord { state: RunState::Created, config: config@, logs: Seq::empty() },
            ),
            r is Err ==> final(self).model() == old(self).model(),
    ;

    /// Starts the environment named `name`. On success it is `Running`, its
    /// configuration and logs unchanged; a failed start changes nothing.
    fn start(&mut self, name: &String) -> (r: Result<(), RuntimeApiError>)
        ensures
            r is Ok ==> old(self).model().contains_key(name@) && final(self).model()
                == old(self).model().insert(
                name@,
                EnvironmentRecord {
                    state: RunState::Running,
                    ..old(self).model()[name@]
                },
            ),
            r is Err ==> final(self).model() == old(self).model(),
    ;

    /// Stops the environment named `name`. On success it is `Stopped`, its
    /// configuration and logs unchanged. Stopping an absent name fails, and a
    /// failed stop changes nothing.
    fn stop(&mut self, name: &String) -> (r: Result<(), RuntimeApiError>)
        ensures
            r is Ok ==> old(self).model().contains_key(name@) && final(self).model()
                == old(self).model().insert(
                name@,
                EnvironmentRecord {
                    state: RunState::Stopped,
                    ..old(self).model()[name@]
                },
            ),
            r is Err ==> final(self).model() == old(self).model(),
            !old(self).model().contains_key(name@) ==> r is Err,
    ;

    /// Removes the environment named `name`. On success no environment of
    /// that name exists any more; removing an absent name fails, and a failed
    /// removal changes nothing.
    fn remove(&mut self, name: &String) -> (r: Result<(), RuntimeApiError>)
        ensures
            r is Ok ==> final(self).model() == old(self).model().remove(name@),
            r is Err ==> final(self).model() == old(self).model(),
            !old(self).model().contains_key(name@) ==> r is Err,
    ;

    /// The run state of the environment named `name`; querying an absent
    /// name fails.
    fn inspect_status(&self, name: &String) -> (r: Result<RunState, RuntimeApiError>)
        ensures
            r matches Ok(state) ==> self.model().contains_key(name@) && state
                == self.model()[name@].state,
            !self.model().contains_key(name@) ==> r is Err,
    ;

    /// The log output of the environment named `name`, accumulated as of the
    /// call (not a live stream); querying an absent name fails.
    fn tail_logs(&self, name: &String) -> (r: Result<String, RuntimeApiError>)
        ensures
            r matches Ok(logs) ==> self.model().contains_key(name@) && logs@
                == self.model()[name@].logs,
            !self.model().contains_key(name@) ==> r is Err,
    ;
}

} // verus!
