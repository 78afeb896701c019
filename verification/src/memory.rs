//! An in-memory execution environment client: the test double of the
//! capability interface. It holds its environments in a list and meets every
//! contract of the interface, so the orchestrator can be exercised without a
//! real container runtime.

use vstd::prelude::*;
use crate::client::EnvironmentClient;
use crate::client::EnvironmentRecord;
use crate::client::RunState;
use crate::client::RuntimeApiError;
use crate::config::EnvironmentSpec;

verus! {

/// One environment the double holds.
pub struct StoredEnvironment {
    name: String,
    state: RunState,
    config: EnvironmentSpec,
    logs: String,
}

/// The record a stored environment stands for.
spec fn record_of(e: StoredEnvironment) -> EnvironmentRecord {
    EnvironmentRecord { state: e.state, config: e.config@, logs: e.logs@ }
}

/// The model of a stored list: each name mapped to its record, a later entry
/// shadowing an earlier one of the same name.
spec fn model_of(s: Seq<StoredEnvironment>) -> Map<Seq<char>, EnvironmentRecord>
    decreases s.len(),
{
    if s.len() == 0 {
        Map::empty()
    } else {
        model_of(s.drop_last()).insert(s.last().name@, record_of(s.last()))
    }
}

/// Whether some entry of `s` bears `name`.
spec fn has_name(s: Seq<StoredEnvironment>, name: Seq<char>) -> bool {
    exists|i: int| 0 <= i < s.len() && s[i].name@ == name
}

/// The entries of `s` not bearing `name`, in order.
spec fn without_name(s: Seq<StoredEnvironment>, name: Seq<char>) -> Seq<
    StoredEnvironment,
>
    decreases s.len(),
{
    if s.len() == 0 {
        Seq::empty()
    } else if s.last().name@ == name {
        without_name(s.drop_last(), name)
    } else {
        without_name(s.drop_last(), name).push(s.last())
    }
}

/// A name is in the model exactly when some entry bears it.
proof fn lemma_model_domain(s: Seq<StoredEnvironment>, name: Seq<char>)
    ensures
        model_of(s).contains_key(name) == has_name(s, name),
    decreases s.len(),
{
    if s.len() == 0 {
    } else {
        lemma_model_domain(s.drop_last(), name);
        if s.last().name@ == name {
            assert(s[s.len() - 1].name@ == name);
        } else {
            assert(forall|i: int|
                0 <= i < s.drop_last().len() ==> s.drop_last()[i] == s[i]);
            if has_name(s, name) {
                let i = choose|i: int| 0 <= i < s.len() && s[i].name@ == name;
                assert(i < s.len() - 1);
                assert(s.drop_last()[i].name@ == name);
            }
        }
    }
}

/// Dropping every entry of one name removes exactly that name from the model.
proof fn lemma_model_without_name(s: Seq<StoredEnvironment>, name: Seq<char>)
    ensures
        model_of(without_name(s, name)) == model_of(s).remove(name),
    decreases s.len(),
{
    if s.len() == 0 {
        assert(model_of(s).remove(name) =~= Map::empty());
    } else {
        lemma_model_without_name(s.drop_last(), name);
        if s.last().name@ == name {
            assert(model_of(s).remove(name) =~= model_of(s.drop_last()).remove(name));
        } else {
            assert(without_name(s, name).drop_last() =~= without_name(s.drop_last(), name));
            assert(model_of(s).remove(name) =~= model_of(s.drop_last()).remove(name).insert(
                s.last().name@,
                record_of(s.last()),
            ));
        }
    }
}

/// The model's record of a name is the record of the last entry bearing it.
proof fn lemma_model_last_match(s: Seq<StoredEnvironment>, i: int, name: Seq<char>)
    requires
        0 <= i < s.len(),
        s[i].name@ == name,
        forall|j: int| i < j < s.len() ==> s[j].name@ != name,
    ensures
        model_of(s).contains_key(name),
        model_of(s)[name] == record_of(s[i]),
    decreases s.len(),
{
    if i == s.len() - 1 {
    } else {
        assert(s.last().name@ != name);
        assert(forall|j: int|
            0 <= j < s.drop_last().len() ==> s.drop_last()[j] == s[j]);
        lemma_model_last_match(s.drop_last(), i, name);
    }
}

/// The in-memory client: a list of environments, empty at construction.
pub struct InMemoryEnvironmentClient {
    entries: Vec<StoredEnvironment>,
}

impl InMemoryEnvironmentClient {
    /// A client holding no environment.
    pub fn new() -> (r: Self)
        ensures
            r.model() == Map::<Seq<char>, EnvironmentRecord>::empty(),
    {
        InMemoryEnvironmentClient { entries: Vec::new() }
    }

    /// Takes every entry bearing `name` out of the list and hands back the
    /// one the model kept, if any.
    fn take_environment(&mut self, name: &String) -> (r: Option<StoredEnvironment>)
        ensures
            final(self).model() == old(self).model().remove(name@),
            r matches Some(e) ==> old(self).model().contains_key(name@)
                && record_of(e) == old(self).model()[name@] && e.name@ == name@,
            r is None ==> !old(self).model().contains_key(name@),
    {
        let ghost orig = self.entries@;
        let orig_len = self.entries.len();
        let mut kept: Vec<StoredEnvironment> = Vec::new();
        let mut found: Option<StoredEnvironment> = None;
        let mut i: usize = 0;
        proof {
            assert(orig.take(0) =~= Seq::empty());
            assert(self.entries@ =~= orig.subrange(0, orig.len() as int));
        }
        while self.entries.len() > 0
            invariant
                orig.len() == orig_len,
                i + self.entries@.len() == orig.len(),
                self.entries@ == orig.subrange(i as int, orig.len() as int),
                kept@ == without_name(orig.take(i as int), name@),
                found is None ==> !model_of(orig.take(i as int)).contains_key(name@),
                found matches Some(f) ==> model_of(orig.take(i as int)).contains_key(name@)
                    && record_of(f) == model_of(orig.take(i as int))[name@] && f.name@ == name@,
            decreases self.entries@.len(),
        {
            let e = self.entries.remove(0);
            proof {
                assert(e == orig[i as int]);
                assert(self.entries@ =~= orig.subrange(i + 1, orig.len() as int));
                assert(orig.take(i + 1).drop_last() =~= orig.take(i as int));
                assert(orig.take(i + 1).last() == orig[i as int]);
            }
            if e.name == *name {
                found = Some(e);
            } else {
                kept.push(e);
            }
            i = i + 1;
        }
        proof {
            assert(orig.take(orig.len() as int) =~= orig);
        }
        self.entries = kept;
        proof {
            lemma_model_without_name(orig, name@);
        }
        found
    }
}

impl EnvironmentClient for InMemoryEnvironmentClient {
    closed spec fn model(&self) -> Map<Seq<char>, EnvironmentRecord> {
        model_of(self.entries@)
    }

    fn environment_exists(&self, name: &String) -> (r: bool) {
        proof {
            lemma_model_domain(self.entries@, name@);
        }
        let mut i: usize = 0;
        while i < self.entries.len()
            invariant
                i <= self.entries@.len(),
                forall|j: int| 0 <= j < i ==> self.entries@[j].name@ != name@,
            decreases self.entries@.len() - i,
        {
            if self.entries[i].name == *name {
                proof {
                    assert(self.entries@[i as int].name@ == name@);
                    assert(has_name(self.entries@, name@));
                    lemma_model_domain(self.entries@, name@);
                    assert(self.model().contains_key(name@));
                }
                return true;
            }
            i = i + 1;
        }
        false
    }

    fn create_and_name(&mut self, config: EnvironmentSpec, name: &String) -> (r: Result<
        (),
        RuntimeApiError,
    >) {
        if self.environment_exists(name) {
            return Err(
                RuntimeApiError {
                    message: String::from_str("an environment with this name already exists"),
                },
            );
        }
        let entry = StoredEnvironment {
            name: name.clone(),
            state: RunState::Created,
            config,
            logs: String::new(),
        };
        proof {
            assert(self.entries@.push(entry).drop_last() =~= self.entries@);
        }
        self.entries.push(entry);
        Ok(())
    }

    fn start(&mut self, name: &String) -> (r: Result<(), RuntimeApiError>) {
        let ghost before = self.model();
        match self.take_environment(name) {
            None => {
                proof {
                    assert(before.remove(name@) =~= before);
                }
                Err(RuntimeApiError { message: String::from_str("no environment of this name") })
            },
            Some(e) => {
                let entry = StoredEnvironment {
                    name: e.name,
                    state: RunState::Running,
                    config: e.config,
                    logs: e.logs,
                };
                proof {
                    assert(self.entries@.push(entry).drop_last() =~= self.entries@);
                    assert(before.remove(name@).insert(name@, record_of(entry)) =~= before.insert(
                        name@,
                        EnvironmentRecord { state: RunState::Running, ..before[name@] },
                    ));
                }
                self.entries.push(entry);
                Ok(())
            },
        }
    }

    fn stop(&mut self, name: &String) -> (r: Result<(), RuntimeApiError>) {
        let ghost before = self.model();
        match self.take_environment(name) {
            None => {
                proof {
                    assert(before.remove(name@) =~= before);
                }
                Err(RuntimeApiError { message: String::from_str("no environment of this name") })
            },
            Some(e) => {
                let entry = StoredEnvironment {
                    name: e.name,
                    state: RunState::Stopped,
                    config: e.config,
                    logs: e.logs,
                };
                proof {
                    assert(self.entries@.push(entry).drop_last() =~= self.entries@);
                    assert(before.remove(name@).insert(name@, record_of(entry)) =~= before.insert(
                        name@,
                        EnvironmentRecord { state: RunState::Stopped, ..before[name@] },
                    ));
                }
                self.entries.push(entry);
                Ok(())
            },
        }
    }

    fn remove(&mut self, name: &String) -> (r: Result<(), RuntimeApiError>) {
        let ghost before = self.model();
        match self.take_environment(name) {
            None => {
                proof {
                    assert(before.remove(name@) =~= before);
                }
                Err(RuntimeApiError { message: String::from_str("no environment of this name") })
            },
            Some(_) => Ok(()),
        }
    }

    fn inspect_status(&self, name: &String) -> (r: Result<RunState, RuntimeApiError>) {
        proof {
            lemma_model_domain(self.entries@, name@);
        }
        let mut i: usize = self.entries.len();
        while i > 0
            invariant
                i <= self.entries@.len(),
                forall|j: int| i <= j < self.entries@.len() ==> self.entries@[j].name@ != name@,
            decreases i,
        {
            i = i - 1;
            if self.entries[i].name == *name {
                proof {
                    lemma_model_last_match(self.entries@, i as int, name@);
                }
                return Ok(self.entries[i].state);
            }
        }
        Err(RuntimeApiError { message: String::from_str("no environment of this name") })
    }

    fn tail_logs(&self, name: &String) -> (r: Result<String, RuntimeApiError>) {
        proof {
            lemma_model_domain(self.entries@, name@);
        }
        let mut i: usize = self.entries.len();
        while i > 0
            invariant
                i <= self.entries@.len(),
                forall|j: int| i <= j < self.entries@.len() ==> self.entries@[j].name@ != name@,
            decreases i,
        {
            i = i - 1;
            if self.entries[i].name == *name {
                proof {
                    lemma_model_last_match(self.entries@, i as int, name@);
                }
                return Ok(self.entries[i].logs.clone());
            }
        }
        Err(RuntimeApiError { message: String::from_str("no environment of this name") })
    }
}

} // verus!
