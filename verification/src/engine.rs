//! The durable execution engine: what its operations check, write and answer.

use crate::builder;
use crate::builder::{EngineBuilder, NoStore};
use crate::context::{Context, ContextView, StatusUpdate, SuspendPoint, UpdateView, WorkflowDef};
use crate::duration::Duration;
use crate::error;
use crate::error::{
    EngineError, ErrorView, StateError, StateErrorView, SubscribeError, SubscribeErrorView,
};
use crate::execution;
use crate::invocation::{InstanceView, Invocation, InvocationBuilder, InvocationBuilderView};
use crate::keys;
use crate::metadata;
use crate::metadata::{MetadataStatus, MetadataView, WorkflowMetadata};
use crate::retry::{PolicyView, RetryPolicy};
use crate::run;
use crate::seqs;
use crate::state::{StateView, WorkflowState};
use crate::step;
use crate::store;
use crate::store::{Write, WriteView};
use crate::stream::{StatusStream, StreamView};
use crate::textmap::TextMap;
use vstd::prelude::*;

verus! {

/// The durable execution engine.
///
/// Workflows are registered by their definitions, then invoked. The engine
/// decides; the store, the tasks and the status channels are its caller's.
#[derive(Debug)]
pub struct Engine {
    workflows: TextMap<()>,
    running: bool,
    default_retry: Option<RetryPolicy>,
    resume_on_start: bool,
    shutdown_timeout: Duration,
    retention: Option<Duration>,
    workflow_retentions: TextMap<Duration>,
}

/// What an [`Engine`] knows.
#[verifier::ext_equal]
pub struct EngineView {
    /// The names of the registered workflows.
    pub workflows: Map<Seq<char>, ()>,
    /// Whether the engine is started and not stopped.
    pub running: bool,
    /// The default retry policy.
    pub default_retry: Option<PolicyView>,
    /// Whether running instances are resumed on start.
    pub resume_on_start: bool,
    /// How long a stop waits for running workflows, in nanoseconds.
    pub shutdown_timeout: nat,
    /// How long terminal instances are kept, in nanoseconds, if not forever.
    pub retention: Option<nat>,
    /// Retentions of single workflows.
    pub retentions: Map<Seq<char>, Duration>,
}

impl View for Engine {
    type V = EngineView;

    closed spec fn view(&self) -> EngineView {
        EngineView {
            workflows: self.workflows@,
            running: self.running,
            default_retry: builder::opt_policy(self.default_retry),
            resume_on_start: self.resume_on_start,
            shutdown_timeout: self.shutdown_timeout@,
            retention: run::opt_span(self.retention),
            retentions: self.workflow_retentions@,
        }
    }
}

/// Registration of a workflow, for per-workflow configuration.
#[derive(Debug)]
pub struct Registration {
    name: String,
}

impl Registration {
    /// The name of the registered workflow.
    pub closed spec fn spec_name(&self) -> Seq<char> {
        self.name@
    }

    /// Sets a per-workflow retention override, which takes precedence over the
    /// engine-level default for instances of this workflow.
    pub fn retention(self, engine: &mut Engine, ttl: Duration) -> (r: Self)
        ensures
            r == self,
            final(engine)@ == (EngineView {
                retentions: old(engine)@.retentions.insert(self.spec_name(), ttl),
                ..old(engine)@
            }),
    {
        engine.set_retention(&self.name, ttl);
        self
    }
}

/// The background work that a start sets off.
#[derive(Debug)]
pub struct StartPlan {
    /// The default retention of the cleanup that is to run, if any.
    pub retention: Option<Duration>,
    /// Whether running instances are resumed.
    pub resume: bool,
}

/// An instance that is to be spawned: its first writes, made in one
/// transaction, its context, and its handle.
#[derive(Debug)]
pub struct Spawn<O> {
    /// The metadata row, and the row of the input, if there is one.
    pub writes: Vec<Write>,
    /// The context that the workflow function receives.
    pub context: Context,
    /// The state to which the instance's status channel is set, silently.
    pub update: StatusUpdate,
    /// The handle.
    pub invocation: Invocation<O>,
}

/// A signal that was delivered: the claim's writes, and, once they are made,
/// what becomes of the instance.
#[derive(Debug)]
pub struct Delivery<O> {
    /// The completed entry and the metadata row.
    pub writes: Vec<Write>,
    /// The instance that is to be spawned, without writes of its own.
    pub spawn: Result<Spawn<O>, EngineError>,
}

/// Why a workflow cannot be spawned, if it cannot: the engine is not running,
/// or no workflow has the name.
pub open spec fn spawn_refused(engine: EngineView, workflow: Seq<char>) -> Option<ErrorView> {
    if !engine.running {
        Some(ErrorView::NotStarted)
    } else if !engine.workflows.contains_key(workflow) {
        Some(ErrorView::WorkflowNotFound(workflow))
    } else {
        None
    }
}

/// The writes that start an instance: it is recorded as running, and its input
/// kept, if it has one.
pub open spec fn spawn_writes(
    workflow: Seq<char>,
    instance: Seq<char>,
    input: Option<Seq<u8>>,
) -> Seq<WriteView> {
    let record = WriteView::PutMeta {
        key: keys::meta_key(workflow, instance),
        value: metadata::metadata_bytes(execution::running()),
    };
    match input {
        Some(row) => seq![
            record,
            WriteView::PutStep {
                key: keys::step_key(workflow, instance, keys::INPUT_KEY@),
                value: row,
            },
        ],
        None => seq![record],
    }
}

/// Whether `s` spawns the given instance with the given writes.
pub open spec fn spawns<O>(
    s: Spawn<O>,
    engine: EngineView,
    workflow: Seq<char>,
    instance: Seq<char>,
    writes: Seq<WriteView>,
) -> bool {
    &&& store::batch_view(s.writes@) == writes
    &&& s.context@ == (ContextView {
        workflow_name: workflow,
        instance_id: instance,
        replaying: true,
        default_retry: engine.default_retry,
    })
    &&& s.update@ == (UpdateView { state: StateView::Started, notify: false })
    &&& s.invocation@ == (InstanceView { workflow_name: workflow, instance_id: instance })
}

/// What reading the metadata row of an instance gave, if the store could be
/// read: the record, or none.
pub open spec fn recorded(
    workflow: Seq<char>,
    instance: Seq<char>,
    row: Result<Option<Vec<u8>>, EngineError>,
) -> Result<Option<MetadataView>, ErrorView> {
    match row {
        Err(e) => Err(e@),
        Ok(None) => Ok(None),
        Ok(Some(bytes)) => match metadata::read_metadata_row(bytes@) {
            Ok(meta) => Ok(Some(meta)),
            Err(source) => Err(
                ErrorView::Serialization { key: keys::meta_key(workflow, instance), source },
            ),
        },
    }
}

fn read_recorded(
    workflow_name: &str,
    instance_id: &str,
    row: Result<Option<Vec<u8>>, EngineError>,
) -> (r: Result<Option<WorkflowMetadata>, EngineError>)
    ensures
        match recorded(workflow_name@, instance_id@, row) {
            Ok(Some(meta)) => r matches Ok(Some(m)) && m@ == meta,
            Ok(None) => r matches Ok(None),
            Err(error) => r matches Err(e) && e@ == error,
        },
{
    match row {
        Err(e) => Err(e),
        Ok(row) => metadata::read_metadata(row, workflow_name, instance_id),
    }
}

impl Engine {
    /// Returns a new [`EngineBuilder`].
    #[must_use]
    pub fn builder() -> (b: EngineBuilder<NoStore>)
        ensures
            b@ == (builder::ConfigView {
                store: NoStore,
                default_retry: None,
                resume_on_start: true,
                shutdown_timeout: None,
                retention: None,
            }),
    {
        EngineBuilder::new()
    }

    pub(crate) fn configured(
        default_retry: Option<RetryPolicy>,
        resume_on_start: bool,
        shutdown_timeout: Duration,
        retention: Option<Duration>,
    ) -> (e: Self)
        ensures
            e@ == (EngineView {
                workflows: Map::empty(),
                running: false,
                default_retry: builder::opt_policy(default_retry),
                resume_on_start,
                shutdown_timeout: shutdown_timeout@,
                retention: run::opt_span(retention),
                retentions: Map::empty(),
            }),
    {
        Engine {
            workflows: TextMap::new(),
            running: false,
            default_retry,
            resume_on_start,
            shutdown_timeout,
            retention,
            workflow_retentions: TextMap::new(),
        }
    }

    fn set_retention(&mut self, name: &str, ttl: Duration)
        ensures
            final(self)@ == (EngineView {
                retentions: old(self)@.retentions.insert(name@, ttl),
                ..old(self)@
            }),
    {
        self.workflow_retentions.insert(name, ttl);
    }

    /// Registers a workflow definition. The engine has not been started.
    pub fn register<I, O>(&mut self, def: &WorkflowDef<I, O>) -> (r: Registration)
        requires
            !old(self)@.running,
        ensures
            r.spec_name() == def.spec_name(),
            final(self)@ == (EngineView {
                workflows: old(self)@.workflows.insert(def.spec_name(), ()),
                ..old(self)@
            }),
    {
        self.workflows.insert(def.name(), ());
        Registration { name: def.name().to_owned() }
    }

    /// Starts the engine, allowing workflow invocations. It has not been
    /// started before.
    pub fn start(&mut self) -> (plan: StartPlan)
        requires
            !old(self)@.running,
        ensures
            final(self)@ == (EngineView { running: true, ..old(self)@ }),
            run::opt_span(plan.retention) == old(self)@.retention,
            plan.resume == old(self)@.resume_on_start,
    {
        self.running = true;
        StartPlan { retention: self.retention, resume: self.resume_on_start }
    }

    /// Whether the engine is started and not stopped.
    #[must_use]
    pub fn is_running(&self) -> (r: bool)
        ensures
            r == self@.running,
    {
        self.running
    }

    /// How long a stop waits for running workflows.
    #[must_use]
    pub fn shutdown_timeout(&self) -> (d: Duration)
        ensures
            d@ == self@.shutdown_timeout,
    {
        self.shutdown_timeout
    }

    /// Retentions of single workflows.
    #[must_use]
    pub fn workflow_retentions(&self) -> (m: &TextMap<Duration>)
        ensures
            m@ == self@.retentions,
    {
        &self.workflow_retentions
    }

    /// The names of the registered workflows, each once.
    #[must_use]
    pub fn workflow_names(&self) -> (names: Vec<String>)
        ensures
            forall|i: int, j: int|
                0 <= i < j < names@.len() ==> (#[trigger] names@[i])@ != (#[trigger] names@[j])@,
            forall|name: Seq<char>|
                self@.workflows.contains_key(name) <==> exists|i: int|
                    0 <= i < names@.len() && (#[trigger] names@[i])@ == name,
    {
        let names = self.workflows.keys();
        proof {
            assert forall|name: Seq<char>|
                self@.workflows.contains_key(name) <==> exists|i: int|
                    0 <= i < names@.len() && (#[trigger] names@[i])@ == name by {
                crate::textmap::order_lists_keys(self.workflows, name);
                if self@.workflows.contains_key(name) {
                    let i = choose|i: int|
                        0 <= i < self.workflows.order().len() && self.workflows.order()[i] == name;
                    assert(names@[i]@ == name);
                }
            }
        }
        names
    }

    /// The instances that a start resumes, out of all instances of a workflow:
    /// those recorded as running. Suspended ones go on waiting.
    #[must_use]
    pub fn resume_running_instances(&self, instances: Vec<(String, WorkflowMetadata)>) -> (ids: Vec<
        String,
    >)
        ensures
            ({
                let resumed = instances@.filter(
                    |x: (String, WorkflowMetadata)| x.1@.status is Running,
                );
                &&& ids@.len() == resumed.len()
                &&& forall|i: int| 0 <= i < ids@.len() ==> (#[trigger] ids@[i])@ == resumed[i].0@
            }),
    {
        let mut ids: Vec<String> = Vec::new();
        let ghost pred = |x: (String, WorkflowMetadata)| x.1@.status is Running;
        let mut i: usize = 0;
        while i < instances.len()
            invariant
                i <= instances@.len(),
                pred == (|x: (String, WorkflowMetadata)| x.1@.status is Running),
                ids@.len() == instances@.take(i as int).filter(pred).len(),
                forall|j: int|
                    0 <= j < ids@.len() ==> (#[trigger] ids@[j])@ == instances@.take(
                        i as int,
                    ).filter(pred)[j].0@,
            decreases instances@.len() - i,
        {
            proof {
                seqs::filter_next(instances@, pred, i as int);
            }
            let (id, meta) = &instances[i];
            if matches!(meta.status(), MetadataStatus::Running) {
                ids.push(id.clone());
            }
            i = i + 1;
        }
        assert(instances@.take(i as int) =~= instances@);
        ids
    }

    /// Invokes a registered workflow, creating a new instance.
    #[must_use]
    pub fn invoke<I, O>(&self, def: &WorkflowDef<I, O>) -> (b: InvocationBuilder<I, O>)
        ensures
            b@ == (InvocationBuilderView { workflow_name: def.spec_name(), input: Ok(None) }),
    {
        InvocationBuilder::new(def.name())
    }

    /// Checks that an instance of the workflow can be spawned.
    fn check_spawn(&self, workflow_name: &str) -> (r: Result<(), EngineError>)
        ensures
            match spawn_refused(self@, workflow_name@) {
                Some(error) => r matches Err(e) && e@ == error,
                None => r is Ok,
            },
    {
        if !self.running {
            return Err(EngineError::NotStarted);
        }
        if !self.workflows.contains_key(workflow_name) {
            return Err(EngineError::WorkflowNotFound(workflow_name.to_owned()));
        }
        Ok(())
    }

    /// The spawning of an instance with the given writes.
    pub(crate) fn spawn<O>(&self, workflow_name: &str, instance_id: String, writes: Vec<Write>) -> (s: Spawn<
        O,
    >)
        ensures
            spawns(s, self@, workflow_name@, instance_id@, store::batch_view(writes@)),
    {
        let default_retry = match &self.default_retry {
            Some(p) => Some(p.clone()),
            None => None,
        };
        Spawn {
            writes,
            context: Context::new(workflow_name.to_owned(), instance_id.clone(), default_retry),
            update: StatusUpdate { state: WorkflowState::Started, notify: false },
            invocation: Invocation::new(workflow_name.to_owned(), instance_id),
        }
    }

    /// Spawns an instance of a workflow, new or known.
    ///
    /// # Errors
    ///
    /// [`EngineError::InvalidKey`] if the name contains `/`,
    /// [`EngineError::NotStarted`] if the engine is not running,
    /// [`EngineError::WorkflowNotFound`] if no workflow has the name.
    pub fn spawn_workflow<O>(
        &self,
        workflow_name: &str,
        instance_id: String,
        input: Option<Vec<u8>>,
    ) -> (r: Result<Spawn<O>, EngineError>)
        ensures
            if !keys::is_component(workflow_name@) {
                r matches Err(e) && e@ == (ErrorView::InvalidKey {
                    label: "workflow_name"@,
                    value: workflow_name@,
                })
            } else {
                match spawn_refused(self@, workflow_name@) {
                    Some(error) => r matches Err(e) && e@ == error,
                    None => {
                        &&& r matches Ok(s)
                        &&& spawns(
                            s,
                            self@,
                            workflow_name@,
                            instance_id@,
                            spawn_writes(workflow_name@, instance_id@, store::opt_row(input)),
                        )
                        &&& metadata::reads_back(execution::running())
                    },
                }
            },
    {
        if let Err(e) = keys::validate_key_component(workflow_name, "workflow_name") {
            return Err(e);
        }
        if let Err(e) = self.check_spawn(workflow_name) {
            return Err(e);
        }
        let meta = WorkflowMetadata::new_at(MetadataStatus::Running, 0);
        let mut writes: Vec<Write> = Vec::new();
        writes.push(metadata::write_metadata(workflow_name, &instance_id, &meta));
        if let Some(value) = input {
            writes.push(
                Write::PutStep {
                    key: keys::composite_key(workflow_name, &instance_id, keys::INPUT_KEY),
                    value,
                },
            );
        }
        assert(store::batch_view(writes@) =~= spawn_writes(
            workflow_name@,
            instance_id@,
            store::opt_row(input),
        ));
        Ok(self.spawn(workflow_name, instance_id, writes))
    }

    /// Resumes a previously failed or incomplete workflow instance.
    ///
    /// # Errors
    ///
    /// [`EngineError::InvalidKey`] if `instance_id` contains `/`, and the
    /// errors of [`spawn_workflow`](Engine::spawn_workflow).
    pub fn resume<I, O>(&self, def: &WorkflowDef<I, O>, instance_id: &str) -> (r: Result<
        Spawn<O>,
        EngineError,
    >)
        ensures
            if !keys::is_component(instance_id@) {
                r matches Err(e) && e@ == (ErrorView::InvalidKey {
                    label: "instance_id"@,
                    value: instance_id@,
                })
            } else if !keys::is_component(def.spec_name()) {
                r matches Err(e) && e@ == (ErrorView::InvalidKey {
                    label: "workflow_name"@,
                    value: def.spec_name(),
                })
            } else {
                match spawn_refused(self@, def.spec_name()) {
                    Some(error) => r matches Err(e) && e@ == error,
                    None => {
                        &&& r matches Ok(s)
                        &&& spawns(
                            s,
                            self@,
                            def.spec_name(),
                            instance_id@,
                            spawn_writes(def.spec_name(), instance_id@, None),
                        )
                    },
                }
            },
    {
        if let Err(e) = keys::validate_key_component(instance_id, "instance_id") {
            return Err(e);
        }
        self.spawn_workflow(def.name(), instance_id.to_owned(), None)
    }

    /// Delivers a signal payload to a suspended workflow step, given the
    /// step's row and the instance's metadata row. The payload comes as what
    /// encoding it gave: its bytes, or the text of the error.
    ///
    /// The step is claimed first; whether the instance can then be spawned is
    /// part of the delivery.
    ///
    /// # Errors
    ///
    /// [`EngineError::InvalidKey`] if `instance_id` contains `/`,
    /// [`EngineError::Serialization`] where encoding the payload failed, and
    /// the errors of [`execution::claim_suspended_step`].
    pub fn signal<I, O, T>(
        &self,
        def: &WorkflowDef<I, O>,
        instance_id: &str,
        point: &SuspendPoint<T>,
        payload: Result<Vec<u8>, String>,
        tag: &str,
        step_row: Option<Vec<u8>>,
        meta_row: Option<Vec<u8>>,
    ) -> (r: Result<Delivery<O>, EngineError>)
        ensures
            if !keys::is_component(instance_id@) {
                r matches Err(e) && e@ == (ErrorView::InvalidKey {
                    label: "instance_id"@,
                    value: instance_id@,
                })
            } else {
                match payload {
                    Err(source) => r matches Err(e) && e@ == (ErrorView::Serialization {
                        key: point.spec_key(),
                        source: source@,
                    }),
                    Ok(bytes) => match execution::claim_decision(
                        def.spec_name(),
                        instance_id@,
                        point.spec_key(),
                        store::opt_row(step_row),
                        store::opt_row(meta_row),
                    ) {
                        Err(error) => r matches Err(e) && e@ == error,
                        Ok(()) => {
                            let entry = step::claimed_entry(bytes@);
                            let value = step::step_bytes(entry, tag@);
                            &&& r matches Ok(d)
                            &&& store::batch_view(d.writes@) == execution::claim_writes(
                                def.spec_name(),
                                instance_id@,
                                point.spec_key(),
                                value,
                            )
                            &&& step::holds(value, entry, tag@)
                            &&& step::status_reads_back(entry)
                            &&& metadata::reads_back(execution::running())
                            &&& execution::claim_is_final(
                                def.spec_name(),
                                instance_id@,
                                point.spec_key(),
                                value,
                            )
                            &&& match spawn_refused(self@, def.spec_name()) {
                                Some(error) => d.spawn matches Err(e) && e@ == error,
                                None => d.spawn matches Ok(s) && spawns(
                                    s,
                                    self@,
                                    def.spec_name(),
                                    instance_id@,
                                    Seq::empty(),
                                ),
                            }
                        },
                    },
                }
            },
    {
        if let Err(e) = keys::validate_key_component(instance_id, "instance_id") {
            return Err(e);
        }
        let payload = match payload {
            Ok(payload) => payload,
            Err(source) => {
                return Err(EngineError::Serialization { key: point.key().to_owned(), source });
            },
        };
        let writes = match execution::claim_suspended_step(
            def.name(),
            instance_id,
            point.key(),
            payload,
            tag,
            step_row,
            meta_row,
        ) {
            Ok(writes) => writes,
            Err(e) => {
                return Err(e);
            },
        };
        let spawn = match self.check_spawn(def.name()) {
            Err(e) => Err(e),
            Ok(()) => {
                let none: Vec<Write> = Vec::new();
                assert(store::batch_view(none@) =~= Seq::empty());
                Ok(self.spawn(def.name(), instance_id.to_owned(), none))
            },
        };
        Ok(Delivery { writes, spawn })
    }

    /// Spawns the instance of a timer whose step was claimed.
    ///
    /// # Errors
    ///
    /// [`EngineError::WorkflowNotFound`] if no workflow has the name.
    pub fn spawn_for_timer(&self, entry: &crate::timer::TimerEntry) -> (r: Result<
        Spawn<()>,
        EngineError,
    >)
        ensures
            if self@.workflows.contains_key(entry@.workflow_name) {
                r matches Ok(s) && spawns(
                    s,
                    self@,
                    entry@.workflow_name,
                    entry@.instance_id,
                    Seq::empty(),
                )
            } else {
                r matches Err(e) && e@ == ErrorView::WorkflowNotFound(entry@.workflow_name)
            },
    {
        if !self.workflows.contains_key(&entry.workflow_name) {
            return Err(EngineError::WorkflowNotFound(entry.workflow_name.clone()));
        }
        let none: Vec<Write> = Vec::new();
        assert(store::batch_view(none@) =~= Seq::empty());
        Ok(self.spawn(&entry.workflow_name, entry.instance_id.clone(), none))
    }

    /// Subscribes to status updates for a workflow instance: a live stream
    /// where the instance has a status channel, and otherwise a snapshot of
    /// its metadata. `row` is what reading the metadata row gave.
    ///
    /// # Errors
    ///
    /// [`SubscribeError::NotFound`] if no such instance exists,
    /// [`SubscribeError::StaleRunning`] if it is recorded as running, and
    /// [`SubscribeError::Storage`] if its metadata cannot be read.
    pub fn subscribe<I, O>(
        &self,
        def: &WorkflowDef<I, O>,
        instance_id: &str,
        live: bool,
        row: Result<Option<Vec<u8>>, EngineError>,
    ) -> (r: Result<StatusStream, SubscribeError>)
        ensures
            if live {
                r matches Ok(s) && s@ == StreamView::Initial
            } else {
                match recorded(def.spec_name(), instance_id@, row) {
                    Err(error) => r matches Err(e) && e@ == SubscribeErrorView::Storage(
                        error::error_text(error),
                    ),
                    Ok(None) => r matches Err(e) && e@ == (SubscribeErrorView::NotFound {
                        workflow_name: def.spec_name(),
                        instance_id: instance_id@,
                    }),
                    Ok(Some(meta)) => if meta.status is Running {
                        r matches Err(e) && e@ == (SubscribeErrorView::StaleRunning {
                            workflow_name: def.spec_name(),
                            instance_id: instance_id@,
                        })
                    } else {
                        r matches Ok(s) && s@ == StreamView::Snapshot(
                            Some(metadata::recorded_state(meta.status)),
                        )
                    },
                }
            },
    {
        if live {
            return Ok(StatusStream::live());
        }
        match read_recorded(def.name(), instance_id, row) {
            Err(e) => Err(SubscribeError::Storage(e.to_string())),
            Ok(None) => Err(
                SubscribeError::NotFound {
                    workflow_name: def.name().to_owned(),
                    instance_id: instance_id.to_owned(),
                },
            ),
            Ok(Some(meta)) => if matches!(meta.status(), MetadataStatus::Running) {
                Err(
                    SubscribeError::StaleRunning {
                        workflow_name: def.name().to_owned(),
                        instance_id: instance_id.to_owned(),
                    },
                )
            } else {
                Ok(StatusStream::snapshot(meta.status().recorded_state()))
            },
        }
    }

    /// Returns the current state of a workflow instance: that of its status
    /// channel, and otherwise the one that its metadata records. `row` is what
    /// reading the metadata row gave.
    ///
    /// # Errors
    ///
    /// [`StateError::NotFound`] if no such instance exists, and
    /// [`StateError::Storage`] if its metadata cannot be read.
    pub fn state<I, O>(
        &self,
        def: &WorkflowDef<I, O>,
        instance_id: &str,
        live: Option<WorkflowState>,
        row: Result<Option<Vec<u8>>, EngineError>,
    ) -> (r: Result<WorkflowState, StateError>)
        ensures
            match live {
                Some(state) => r == Ok::<WorkflowState, StateError>(state),
                None => match recorded(def.spec_name(), instance_id@, row) {
                    Err(error) => r matches Err(e) && e@ == StateErrorView::Storage(
                        error::error_text(error),
                    ),
                    Ok(None) => r matches Err(e) && e@ == (StateErrorView::NotFound {
                        workflow_name: def.spec_name(),
                        instance_id: instance_id@,
                    }),
                    Ok(Some(meta)) => r matches Ok(s) && s@ == metadata::recorded_state(
                        meta.status,
                    ),
                },
            },
    {
        if let Some(state) = live {
            return Ok(state);
        }
        match read_recorded(def.name(), instance_id, row) {
            Err(e) => Err(StateError::Storage(e.to_string())),
            Ok(None) => Err(
                StateError::NotFound {
                    workflow_name: def.name().to_owned(),
                    instance_id: instance_id.to_owned(),
                },
            ),
            Ok(Some(meta)) => Ok(meta.status().recorded_state()),
        }
    }

    /// Returns the metadata for a specific workflow instance, from its row.
    ///
    /// # Errors
    ///
    /// [`EngineError::Serialization`] where the row holds no metadata.
    pub fn get_metadata<I, O>(
        &self,
        def: &WorkflowDef<I, O>,
        instance_id: &str,
        row: Option<Vec<u8>>,
    ) -> (r: Result<Option<WorkflowMetadata>, EngineError>)
        ensures
            match recorded(def.spec_name(), instance_id@, Ok(row)) {
                Ok(Some(meta)) => r matches Ok(Some(m)) && m@ == meta,
                Ok(None) => r matches Ok(None),
                Err(error) => r matches Err(e) && e@ == error,
            },
    {
        metadata::read_metadata(row, def.name(), instance_id)
    }

    /// Lists all instances of a workflow definition, from the metadata rows in
    /// its key range.
    ///
    /// # Errors
    ///
    /// As [`metadata::list_metadata`] on the rows.
    pub fn list_instances<I, O>(
        &self,
        def: &WorkflowDef<I, O>,
        rows: Vec<(String, Vec<u8>)>,
    ) -> (r: Result<Vec<(String, WorkflowMetadata)>, EngineError>)
        requires
            forall|i: int|
                0 <= i < rows@.len() ==> keys::in_range(
                    (#[trigger] rows@[i]).0@,
                    keys::range_start(def.spec_name()),
                    keys::range_end(def.spec_name()),
                ),
        ensures
            match r {
                Ok(list) => {
                    &&& metadata::readable(rows@, rows@.len() as int)
                    &&& list@.len() == rows@.len()
                    &&& forall|i: int|
                        #![trigger list@[i]]
                        0 <= i < list@.len() ==> {
                            &&& rows@[i].0@ == keys::meta_key(def.spec_name(), list@[i].0@)
                            &&& metadata::read_metadata_row(rows@[i].1@) == Ok::<
                                MetadataView,
                                Seq<char>,
                            >(list@[i].1@)
                        }
                },
                Err(e) => exists|i: int|
                    0 <= i < rows@.len() && metadata::readable(rows@, i) && (
                    #[trigger] metadata::read_metadata_row(rows@[i].1@)) is Err && e@ == (
                    ErrorView::Serialization {
                        key: rows@[i].0@,
                        source: metadata::read_metadata_row(rows@[i].1@)->Err_0,
                    }),
            },
    {
        metadata::list_metadata(rows, def.name())
    }

    /// Stops the engine: no new workflow is spawned.
    pub fn stop(&mut self)
        ensures
            final(self)@ == (EngineView { running: false, ..old(self)@ }),
    {
        self.running = false;
    }

    /// Stops the engine in order to wait for all running workflows.
    pub fn wait_all(&mut self)
        ensures
            final(self)@ == (EngineView { running: false, ..old(self)@ }),
    {
        self.running = false;
    }
}

/// What a background loop does next.
#[derive(Clone, Copy, Debug, PartialEq, Eq, Structural)]
pub enum LoopStep {
    /// Sleep for a second.
    Sleep,
    /// Do the loop's work.
    Work,
    /// End the loop.
    Stop,
}

/// A background loop that does its work after every so many seconds, and ends
/// when the engine stops.
#[derive(Debug)]
pub struct BackgroundLoop {
    period: u32,
    slept: u32,
    checked: bool,
}

/// Where a [`BackgroundLoop`] stands.
pub struct LoopView {
    /// The seconds between two rounds of work.
    pub period: nat,
    /// The seconds slept since the last round.
    pub slept: nat,
    /// Whether the loop also asks, after the last sleep of a round, whether
    /// the engine still runs.
    pub checked: bool,
}

impl View for BackgroundLoop {
    type V = LoopView;

    closed spec fn view(&self) -> LoopView {
        LoopView { period: self.period as nat, slept: self.slept as nat, checked: self.checked }
    }
}

/// What a loop does next, and where it then stands.
pub open spec fn loop_decision(l: LoopView, running: bool) -> (LoopView, LoopStep) {
    if l.slept >= l.period && (running || !l.checked) {
        (LoopView { slept: 0, ..l }, LoopStep::Work)
    } else if !running {
        (l, LoopStep::Stop)
    } else {
        (LoopView { slept: l.slept + 1, ..l }, LoopStep::Sleep)
    }
}

impl BackgroundLoop {
    /// The loop that polls for expired timers: every second, and once more
    /// after the sleep during which the engine stopped.
    #[must_use]
    pub fn timers() -> (l: Self)
        ensures
            l@ == (LoopView { period: 1, slept: 0, checked: false }),
    {
        BackgroundLoop { period: 1, slept: 0, checked: false }
    }

    /// The loop that cleans up expired instances: every minute.
    #[must_use]
    pub fn retention() -> (l: Self)
        ensures
            l@ == (LoopView { period: 60, slept: 0, checked: true }),
    {
        BackgroundLoop { period: 60, slept: 0, checked: true }
    }

    /// What the loop does next.
    pub fn next(&mut self, running: bool) -> (step: LoopStep)
        ensures
            (final(self)@, step) == loop_decision(old(self)@, running),
    {
        if self.slept >= self.period && (running || !self.checked) {
            self.slept = 0;
            LoopStep::Work
        } else if !running {
            LoopStep::Stop
        } else {
            self.slept = self.slept + 1;
            LoopStep::Sleep
        }
    }
}

/// However an instance comes to run, whether it is invoked, resumed, signalled
/// or woken by a timer, and whatever is written for it, a step without a choice
/// of its own has the engine's default policy; and the instance starts anew,
/// replaying, under its own name and ID, which its handle has too.
pub proof fn every_spawn_starts_alike<O>(
    s: Spawn<O>,
    engine: EngineView,
    workflow: Seq<char>,
    instance: Seq<char>,
    writes: Seq<WriteView>,
    b: run::BuilderView,
)
    requires
        spawns(s, engine, workflow, instance, writes),
    ensures
        s.context@.default_retry == engine.default_retry,
        b.retry is Default ==> run::effective_policy(b, s.context@) == engine.default_retry,
        b.retry is Default ==> run::first_attempt(b, s.context@).policy == engine.default_retry,
        s.context@.replaying,
        s.context@.workflow_name == workflow && s.context@.instance_id == instance,
        s.invocation@.workflow_name == workflow && s.invocation@.instance_id == instance,
        s.update@.state is Started && !s.update@.notify,
        store::batch_view(s.writes@) == writes,
{
}

/// Two spawns of one engine and instance differ in nothing but their writes: an
/// instance that is resumed by a signal runs as one that is invoked.
pub proof fn spawns_differ_in_writes_only<O, P>(
    s: Spawn<O>,
    other: Spawn<P>,
    engine: EngineView,
    workflow: Seq<char>,
    instance: Seq<char>,
    writes: Seq<WriteView>,
    other_writes: Seq<WriteView>,
)
    requires
        spawns(s, engine, workflow, instance, writes),
        spawns(other, engine, workflow, instance, other_writes),
    ensures
        s.context@ == other.context@,
        s.update@ == other.update@,
        s.invocation@ == other.invocation@,
{
}

/// A workflow can be spawned exactly where the engine is running and the
/// workflow is registered; the refusal says which of the two is missing, the
/// engine first.
pub proof fn spawn_needs_running_and_registered(engine: EngineView, workflow: Seq<char>)
    ensures
        spawn_refused(engine, workflow) is None <==> engine.running
            && engine.workflows.contains_key(workflow),
        spawn_refused(engine, workflow) == Some(ErrorView::NotStarted) <==> !engine.running,
        engine.running && !engine.workflows.contains_key(workflow) ==> spawn_refused(
            engine,
            workflow,
        ) == Some(ErrorView::WorkflowNotFound(workflow)),
{
}

/// Whether a running engine goes on with a loop, and how: it sleeps until the
/// period has passed since the last round of work, then works, and never stops.
pub proof fn running_loop_works_once_per_period(l: LoopView)
    ensures
        ({
            let (next, step) = loop_decision(l, true);
            &&& step == LoopStep::Work <==> l.slept >= l.period
            &&& step == LoopStep::Sleep <==> l.slept < l.period
            &&& step == LoopStep::Work ==> next.slept == 0
            &&& step == LoopStep::Sleep ==> next.slept == l.slept + 1
            &&& next.period == l.period && next.checked == l.checked
        }),
{
}

/// A loop ends once the engine has stopped: it sleeps no more, and works once
/// more only where the period has passed and it does not ask before its work.
pub proof fn stopped_loop_ends(l: LoopView)
    ensures
        ({
            let (next, step) = loop_decision(l, false);
            &&& step != LoopStep::Sleep
            &&& step == LoopStep::Work <==> l.slept >= l.period && !l.checked
            &&& l.period > 0 && step == LoopStep::Work ==> loop_decision(next, false).1
                == LoopStep::Stop
        }),
{
}

/// A query of an instance's metadata finds what was written: the record, or
/// none where there is no row; an error of the store is passed on.
pub proof fn written_record_is_found(
    workflow: Seq<char>,
    instance: Seq<char>,
    meta: MetadataView,
    row: Vec<u8>,
    e: EngineError,
)
    requires
        metadata::reads_back(meta),
        row@ == metadata::metadata_bytes(meta),
    ensures
        recorded(workflow, instance, Ok(Some(row))) == Ok::<Option<MetadataView>, ErrorView>(
            Some(meta),
        ),
        recorded(workflow, instance, Ok(None)) == Ok::<Option<MetadataView>, ErrorView>(None),
        recorded(workflow, instance, Err(e)) == Err::<Option<MetadataView>, ErrorView>(e@),
{
}

/// A record that cannot be read is a serialization error under the key of the
/// instance's own row.
pub proof fn broken_record_is_named(workflow: Seq<char>, instance: Seq<char>, row: Vec<u8>)
    ensures
        metadata::read_metadata_row(row@) matches Err(source) ==> recorded(
            workflow,
            instance,
            Ok(Some(row)),
        ) == Err::<Option<MetadataView>, ErrorView>(
            ErrorView::Serialization { key: workflow + seq!['/'] + instance, source },
        ),
{
}

} // verus!
