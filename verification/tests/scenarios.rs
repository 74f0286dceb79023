//! Whole workflows on the library's decisions: a store in memory, tasks that
//! run to their end at once, and a clock that is set by hand.

use std::cell::{Cell, RefCell};
use std::collections::{BTreeMap, HashMap};
use std::rc::Rc;

use memable::clock;
use memable::execution;
use memable::fan_out;
use memable::fan_out::{ChildEnd, FanOutManifest, Joined, Slots};
use memable::keys;
use memable::retention;
use memable::workflow;
use memable::{
    AttemptOutcome, ChildError, Context, Duration, Engine, EngineBuilder, EngineError, HasStore,
    MetadataStatus, PollAction, PollEvent, RetryPolicy, RunLog, RunStart, RunStep, Spawn, StatusUpdate, StepBuilder, StepError,
    StreamStep, SubscribeError, SuspendBuilder, SuspendOutcome, SuspendPoint, TextMap, TimerPoll, TimerStatus,
    WaitResult, WorkflowDef, WorkflowMetadata, WorkflowState, Write,
};
use serde::de::DeserializeOwned;
use serde::Serialize;

trait Value: Serialize + DeserializeOwned + 'static {
    const NAME: &'static str;
}

impl Value for () {
    const NAME: &'static str = "()";
}

impl Value for bool {
    const NAME: &'static str = "bool";
}

impl Value for i32 {
    const NAME: &'static str = "i32";
}

impl Value for u32 {
    const NAME: &'static str = "u32";
}

impl Value for String {
    const NAME: &'static str = "alloc::string::String";
}

impl Value for Vec<i32> {
    const NAME: &'static str = "alloc::vec::Vec<i32>";
}

impl Value for Vec<Kept<i32>> {
    const NAME: &'static str = "alloc::vec::Vec<Kept<i32>>";
}

impl Value for Vec<Kept<String>> {
    const NAME: &'static str = "alloc::vec::Vec<Kept<alloc::string::String>>";
}

impl Value for Vec<String> {
    const NAME: &'static str = "alloc::vec::Vec<alloc::string::String>";
}

fn encode<T: Value>(value: &T) -> Result<Vec<u8>, String> {
    postcard::to_allocvec(value).map_err(|e| e.to_string())
}

fn parse<T: Value>(body: Vec<u8>) -> Result<(T, Option<String>), String> {
    postcard::from_bytes(&body).map_err(|e| e.to_string())
}

#[derive(Default)]
struct Rows {
    steps: BTreeMap<String, Vec<u8>>,
    meta: BTreeMap<String, Vec<u8>>,
    timers: BTreeMap<(u64, u64), Vec<u8>>,
}

impl Rows {
    fn commit(&mut self, writes: Vec<Write>) {
        for write in writes {
            match write {
                Write::PutStep { key, value } => drop(self.steps.insert(key, value)),
                Write::RemoveStep { key } => drop(self.steps.remove(&key)),
                Write::PutMeta { key, value } => drop(self.meta.insert(key, value)),
                Write::RemoveMeta { key } => drop(self.meta.remove(&key)),
                Write::PutTimer { deadline, serial, value } => {
                    self.timers.insert((deadline, serial), value);
                }
                Write::RemoveTimer { deadline, serial } => {
                    self.timers.remove(&(deadline, serial));
                }
            }
        }
    }

    fn keys_under(&self, parent: &str) -> Vec<String> {
        let (start, end) = keys::child_range(parent);
        self.steps.range(start..end).map(|(k, _)| k.clone()).collect()
    }
}

struct Channel {
    state: WorkflowState,
    announced: Vec<WorkflowState>,
}

/// The status channels, by the metadata keys of their instances.
type Senders = Rc<RefCell<HashMap<String, Rc<RefCell<Channel>>>>>;

struct World {
    engine: RefCell<Engine>,
    rows: RefCell<Rows>,
    senders: Senders,
    now_ms: Cell<u64>,
    serial: Cell<u64>,
    slept: RefCell<Vec<Duration>>,
}

struct Ctx {
    core: Context,
    world: Rc<World>,
    channel: Rc<RefCell<Channel>>,
    log: RefCell<RunLog>,
}

enum Attempt<T> {
    Returned(Result<T, StepError>),
    TimedOut,
}

impl Ctx {
    fn update(&self, update: StatusUpdate) {
        self.log.borrow_mut().record(&update);
        let mut channel = self.channel.borrow_mut();
        channel.state = update.state;
        if update.notify {
            let state = channel.state.clone();
            channel.announced.push(state);
        }
    }

    fn row(&self, step: &str) -> Option<Vec<u8>> {
        self.world.rows.borrow().steps.get(&self.core.row_key(step)).cloned()
    }

    fn set_status(&self, msg: &str) {
        self.update(self.core.set_status(msg));
    }

    fn input<T: Value>(&self) -> Result<Option<T>, EngineError> {
        self.core.input(self.row(keys::INPUT_KEY), T::NAME, parse::<T>)
    }

    fn step<T: Value>(
        &mut self,
        key: &str,
        f: impl FnMut() -> Result<T, StepError>,
    ) -> Result<T, EngineError> {
        self.run(self.core.step(key), f)
    }

    fn run<T: Value>(
        &mut self,
        step: StepBuilder,
        mut f: impl FnMut() -> Result<T, StepError>,
    ) -> Result<T, EngineError> {
        self.attempts(step, || Attempt::Returned(f()))
    }

    fn attempts<T: Value>(
        &mut self,
        step: StepBuilder,
        mut f: impl FnMut() -> Attempt<T>,
    ) -> Result<T, EngineError> {
        let row = self.row(step.key());
        let mut run = match step.run(&mut self.core, row, T::NAME, parse::<T>)? {
            RunStart::Cached { result, update } => {
                if let Some(update) = update {
                    self.update(update);
                }
                return Ok(result);
            }
            RunStart::Execute(run) => run,
        };
        loop {
            let mut value = None;
            let outcome = match f() {
                Attempt::Returned(Ok(v)) => {
                    let encoded = encode(&v);
                    value = Some(v);
                    AttemptOutcome::Succeeded(encoded)
                }
                Attempt::Returned(Err(e)) => AttemptOutcome::Failed(e),
                Attempt::TimedOut => AttemptOutcome::TimedOut(run.timeout().expect("timeout")),
            };
            let current = self.channel.borrow().state.clone();
            match run.after_attempt(outcome, &current, T::NAME) {
                RunStep::Retry { run: next, delay } => {
                    self.world.slept.borrow_mut().push(delay);
                    run = next;
                }
                RunStep::Done { write, result } => {
                    self.world.rows.borrow_mut().commit(write.into_iter().collect());
                    return result.map(|()| value.expect("a success has a value"));
                }
            }
        }
    }

    fn suspend<T: Value>(&mut self, point: &SuspendPoint<T>) -> Result<T, EngineError> {
        self.wait_at(self.core.suspend(point))
    }

    fn wait_at<T: Value>(&mut self, point: SuspendBuilder) -> Result<T, EngineError> {
        let row = self.row(point.key());
        match self.core.execute_suspend(&point, row, T::NAME, parse::<T>)? {
            SuspendOutcome::Resumed { result, restore } => {
                if let Some(update) = restore {
                    self.update(update);
                }
                Ok(result)
            }
            SuspendOutcome::Entered { write, update, error } => {
                self.world.rows.borrow_mut().commit(vec![write]);
                self.update(update);
                Err(error)
            }
            SuspendOutcome::Waiting { update, error } => {
                self.update(update);
                Err(error)
            }
        }
    }

    fn timer(&mut self, key: &str, duration: Duration) -> Result<(), EngineError> {
        match self.core.timer(key, self.row(key))? {
            TimerStatus::Fired => Ok(()),
            TimerStatus::Unset => {
                let serial = self.world.serial.get();
                self.world.serial.set(serial + 1);
                let armed = self.core.arm_timer(key, duration, self.world.now_ms.get(), serial);
                self.world.rows.borrow_mut().commit(armed.writes);
                self.update(armed.update);
                Err(armed.error)
            }
        }
    }

    fn child(&self, workflow: &str, id: &str) -> Ctx {
        let spawn = fan_out::start_inline_child(&self.world.engine.borrow(), workflow, id);
        self.world.rows.borrow_mut().commit(spawn.writes);
        let state = spawn.update.state;
        let channel = Rc::new(RefCell::new(Channel { state, announced: vec![] }));
        let key = keys::metadata_key(workflow, id);
        self.world.senders.borrow_mut().insert(key, Rc::clone(&channel));
        let log = RefCell::new(RunLog::new());
        Ctx { core: spawn.context, world: Rc::clone(&self.world), channel, log }
    }

    fn inline_child<T: Value>(
        &self,
        id: &str,
        f: impl FnOnce(&mut Ctx) -> Result<T, EngineError>,
    ) -> Result<T, EngineError> {
        let workflow = self.core.workflow_name().to_string();
        let mut child = self.child(&workflow, id);
        let (end, value) = match f(&mut child) {
            Err(e) => (ChildEnd::Failed(e), None),
            Ok(value) => {
                match workflow::write_output(&workflow, id, encode(&value), T::NAME) {
                    Ok(write) => {
                        self.world.rows.borrow_mut().commit(vec![write]);
                        (ChildEnd::Succeeded, Some(value))
                    }
                    Err(e) => (ChildEnd::NotWritten(e), None),
                }
            }
        };
        let current = child.channel.borrow().state.clone();
        let now = self.world.now_ms.get() / 1000;
        let (settlement, result) =
            fan_out::finish_inline_child(end, &workflow, id, &current, &child.log.borrow(), now);
        self.world.rows.borrow_mut().commit(vec![settlement.write]);
        self.world.senders.borrow_mut().remove(&keys::metadata_key(&workflow, id));
        result.map(|()| value.expect("a success has a value"))
    }

    fn fan_out_fail_fast<I, T: Value>(
        &mut self,
        key: &str,
        items: Vec<I>,
        f: impl Fn(&mut Ctx, I) -> Result<T, EngineError>,
    ) -> Result<Vec<T>, EngineError>
    where
        Vec<T>: Value,
    {
        let tag = <Vec<T> as Value>::NAME;
        if let Some(kept) = fan_out::check_cached(self.row(key), key, tag, parse::<Vec<T>>)? {
            return Ok(kept);
        }
        let manifest = FanOutManifest::new(self.core.instance_id(), key, items.len());
        let mut slots: Slots<T> = Slots::new(manifest.count);
        for (index, item) in items.into_iter().enumerate() {
            let id = &manifest.child_instance_ids[index];
            let result = self.inline_child(id, |ctx| f(ctx, item));
            fan_out::collect_fail_fast(&mut slots, Joined::Returned { index, result })?;
        }
        let results = slots.finish();
        let (workflow, id) = (self.core.workflow_name(), self.core.instance_id());
        let write = fan_out::write_result(workflow, id, key, encode(&results), tag)?;
        self.world.rows.borrow_mut().commit(vec![write]);
        Ok(results)
    }

    fn fan_out_collect_all<I, T: Value>(
        &mut self,
        key: &str,
        items: Vec<I>,
        f: impl Fn(&mut Ctx, I) -> Result<T, EngineError>,
    ) -> Result<Vec<Kept<T>>, EngineError>
    where
        Vec<Kept<T>>: Value,
    {
        let tag = <Vec<Kept<T>> as Value>::NAME;
        if let Some(kept) = fan_out::check_cached(self.row(key), key, tag, parse::<Vec<Kept<T>>>)? {
            return Ok(kept);
        }
        let manifest = FanOutManifest::new(self.core.instance_id(), key, items.len());
        let mut slots: Slots<Result<T, ChildError>> = Slots::new(manifest.count);
        for (index, item) in items.into_iter().enumerate() {
            let id = &manifest.child_instance_ids[index];
            let result = self.inline_child(id, |ctx| f(ctx, item));
            let joined = Joined::Returned { index, result };
            fan_out::collect_all(&mut slots, joined, &manifest.child_instance_ids)?;
        }
        let results: Vec<Kept<T>> =
            slots.finish().into_iter().map(|r| r.map_err(|e| parts(&e))).collect();
        let (workflow, id) = (self.core.workflow_name(), self.core.instance_id());
        let write = fan_out::write_result(workflow, id, key, encode(&results), tag)?;
        self.world.rows.borrow_mut().commit(vec![write]);
        Ok(results)
    }
}

/// What is kept of a child: its value, or its ID and the text of its error.
type Kept<T> = Result<T, (String, String)>;

fn parts(e: &ChildError) -> (String, String) {
    (e.instance_id().to_string(), e.message().to_string())
}

type Body = Rc<dyn Fn(&mut Ctx) -> Result<(), EngineError>>;

struct Sim {
    world: Rc<World>,
    bodies: HashMap<String, Body>,
    last: Option<Rc<RefCell<Channel>>>,
}

fn sim_of(builder: EngineBuilder<HasStore<()>>) -> Sim {
    Sim {
        world: Rc::new(World {
            engine: RefCell::new(builder.build(None).0),
            rows: RefCell::new(Rows::default()),
            senders: Rc::new(RefCell::new(HashMap::new())),
            now_ms: Cell::new(1_000_000),
            serial: Cell::new(0),
            slept: RefCell::new(vec![]),
        }),
        bodies: HashMap::new(),
        last: None,
    }
}

fn test_engine() -> Sim {
    sim_of(Engine::builder().with_store(()))
}

impl Sim {
    fn register<O: Value>(
        &mut self,
        def: &WorkflowDef<(), O>,
        f: impl Fn(&mut Ctx) -> Result<O, EngineError> + 'static,
    ) {
        let _ = self.world.engine.borrow_mut().register(def);
        self.add(def.name(), f);
    }

    fn register_with_input<I: Value, O: Value>(
        &mut self,
        def: &WorkflowDef<I, O>,
        f: impl Fn(&mut Ctx, I) -> Result<O, EngineError> + 'static,
    ) {
        let _ = self.world.engine.borrow_mut().register(def);
        self.add(def.name(), move |ctx: &mut Ctx| {
            let name = ctx.core.workflow_name().to_string();
            let input = workflow::require_input(ctx.input::<I>()?, &name)?;
            f(ctx, input)
        });
    }

    fn add<O: Value>(
        &mut self,
        name: &str,
        f: impl Fn(&mut Ctx) -> Result<O, EngineError> + 'static,
    ) {
        let body: Body = Rc::new(move |ctx: &mut Ctx| {
            let output = f(ctx)?;
            let (workflow, id) = (ctx.core.workflow_name(), ctx.core.instance_id());
            let write = workflow::write_output(workflow, id, encode(&output), O::NAME)?;
            ctx.world.rows.borrow_mut().commit(vec![write]);
            Ok(())
        });
        self.bodies.insert(name.to_string(), body);
    }

    fn start(&mut self) {
        let plan = self.world.engine.borrow_mut().start();
        if plan.resume {
            let names = self.world.engine.borrow().workflow_names();
            for name in names {
                let (start, end) = keys::child_range(&name);
                let rows = self
                    .world
                    .rows
                    .borrow()
                    .meta
                    .range(start..end)
                    .map(|(k, v)| (k.clone(), v.clone()))
                    .collect();
                let listed = memable::metadata::list_metadata(rows, &name).expect("readable");
                let ids = self.world.engine.borrow().resume_running_instances(listed);
                for id in ids {
                    let spawn = self.world.engine.borrow().spawn_workflow::<()>(&name, id, None);
                    let spawn = spawn.expect("spawns");
                    self.execute(spawn);
                }
            }
        }
    }

    fn execute<O>(&mut self, spawn: Spawn<O>) -> WaitResult<O> {
        self.world.rows.borrow_mut().commit(spawn.writes);
        let id = spawn.invocation.instance_id().to_string();
        let name = spawn.context.workflow_name().to_string();
        let key = keys::metadata_key(&name, &id);
        let channel = {
            let mut senders = self.world.senders.borrow_mut();
            let fresh = || {
                let state = WorkflowState::Started;
                Rc::new(RefCell::new(Channel { state, announced: vec![] }))
            };
            Rc::clone(senders.entry(key.clone()).or_insert_with(fresh))
        };
        channel.borrow_mut().state = spawn.update.state;
        channel.borrow_mut().announced.clear();
        self.last = Some(Rc::clone(&channel));
        let mut ctx = Ctx {
            core: spawn.context,
            world: Rc::clone(&self.world),
            channel: Rc::clone(&channel),
            log: RefCell::new(RunLog::new()),
        };
        let body = Rc::clone(&self.bodies[&name]);
        let result = body(&mut ctx);
        let current = channel.borrow().state.clone();
        let now = self.world.now_ms.get() / 1000;
        let settlement = execution::handle_workflow_result(
            result,
            &name,
            &id,
            &current,
            &ctx.log.borrow(),
            now,
        );
        self.world.rows.borrow_mut().commit(vec![settlement.write]);
        channel.borrow_mut().announced.push(settlement.state.clone());
        channel.borrow_mut().state = settlement.state.clone();
        if settlement.terminal {
            self.world.senders.borrow_mut().remove(&key);
        }
        assert!(spawn.invocation.is_settled(&settlement.state));
        spawn.invocation.wait(settlement.state)
    }

    fn invoke<O: Value>(
        &mut self,
        def: &WorkflowDef<(), O>,
    ) -> Result<(String, WaitResult<O>), EngineError> {
        let (name, row) = self.world.engine.borrow().invoke(def).into_request()?;
        self.begin(&name, row)
    }

    fn invoke_with<I: Value, O: Value>(
        &mut self,
        def: &WorkflowDef<I, O>,
        input: I,
    ) -> Result<(String, WaitResult<O>), EngineError> {
        let builder = self.world.engine.borrow().invoke(def).input(encode(&input), I::NAME);
        let (name, row) = builder.into_request()?;
        self.begin(&name, row)
    }

    fn begin<O: Value>(
        &mut self,
        name: &str,
        row: Option<Vec<u8>>,
    ) -> Result<(String, WaitResult<O>), EngineError> {
        let id = clock::generate_instance_id().expect("after the epoch");
        let spawn = self.world.engine.borrow().spawn_workflow(name, id.clone(), row)?;
        Ok((id, self.execute(spawn)))
    }

    fn resume<I, O>(
        &mut self,
        def: &WorkflowDef<I, O>,
        id: &str,
    ) -> Result<WaitResult<O>, EngineError> {
        let spawn = self.world.engine.borrow().resume(def, id)?;
        Ok(self.execute(spawn))
    }

    fn signal<I, O, T: Value>(
        &mut self,
        def: &WorkflowDef<I, O>,
        id: &str,
        point: &SuspendPoint<T>,
        payload: T,
    ) -> Result<WaitResult<O>, EngineError> {
        let (step_row, meta_row) = {
            let rows = self.world.rows.borrow();
            (
                rows.steps.get(&keys::composite_key(def.name(), id, point.key())).cloned(),
                rows.meta.get(&keys::metadata_key(def.name(), id)).cloned(),
            )
        };
        let delivery = self.world.engine.borrow().signal(
            def,
            id,
            point,
            encode(&payload),
            T::NAME,
            step_row,
            meta_row,
        )?;
        self.world.rows.borrow_mut().commit(delivery.writes);
        Ok(self.execute(delivery.spawn?))
    }

    fn poll_timers(&mut self) -> Result<(), EngineError> {
        let rows: Vec<((u64, u64), Vec<u8>)> =
            self.world.rows.borrow().timers.iter().map(|(k, v)| (*k, v.clone())).collect();
        let mut poll = TimerPoll::new(rows, self.world.now_ms.get())?;
        let mut event = PollEvent::Done;
        loop {
            event = match poll.next(event) {
                PollAction::Remove(write) => {
                    self.world.rows.borrow_mut().commit(vec![write]);
                    PollEvent::Done
                }
                PollAction::ReadMeta { key } => {
                    PollEvent::Recorded(self.world.rows.borrow().meta.get(&key).cloned())
                }
                PollAction::Claim(entry) => {
                    let (name, id) = (&entry.workflow_name, &entry.instance_id);
                    let mut rows = self.world.rows.borrow_mut();
                    let step_key = keys::composite_key(name, id, &entry.step_key);
                    let step_row = rows.steps.get(&step_key).cloned();
                    let meta_row = rows.meta.get(&keys::metadata_key(name, id)).cloned();
                    match execution::signal_timer(&entry, step_row, meta_row) {
                        Ok(writes) => {
                            rows.commit(writes);
                            PollEvent::Done
                        }
                        Err(e) => PollEvent::Failed(e),
                    }
                }
                PollAction::Spawn(entry) => {
                    let spawn = self.world.engine.borrow().spawn_for_timer(&entry);
                    match spawn {
                        Ok(spawn) => {
                            self.execute(spawn);
                            PollEvent::Done
                        }
                        Err(e) => PollEvent::Failed(e),
                    }
                }
                PollAction::Finish(result) => return result,
            };
        }
    }

    fn cleanup_expired(
        &mut self,
        default: Duration,
        overrides: &TextMap<Duration>,
    ) -> Result<u32, EngineError> {
        let rows: Vec<(String, Vec<u8>)> =
            self.world.rows.borrow().meta.iter().map(|(k, v)| (k.clone(), v.clone())).collect();
        let now = self.world.now_ms.get() / 1000;
        let expired = retention::collect_expired_metadata(rows, now, default, overrides)?;
        let mut outcomes = vec![];
        for (name, id) in &expired {
            let mut rows = self.world.rows.borrow_mut();
            let steps = rows.keys_under(&keys::metadata_key(name, id));
            let timers = rows.timers.iter().map(|(k, v)| (*k, v.clone())).collect();
            rows.commit(retention::delete_instance_data(name, id, steps, timers));
            outcomes.push(Ok(()));
        }
        Ok(retention::count_cleaned(&outcomes))
    }

    fn sleep(&self, secs: u64) {
        self.world.now_ms.set(self.world.now_ms.get() + secs * 1000);
    }

    fn meta_row<I, O>(&self, def: &WorkflowDef<I, O>, id: &str) -> Option<Vec<u8>> {
        self.world.rows.borrow().meta.get(&keys::metadata_key(def.name(), id)).cloned()
    }

    fn get_metadata<I, O>(&self, def: &WorkflowDef<I, O>, id: &str) -> Option<WorkflowMetadata> {
        self.world.engine.borrow().get_metadata(def, id, self.meta_row(def, id)).expect("readable")
    }

    fn list_instances<I, O>(&self, def: &WorkflowDef<I, O>) -> Vec<(String, WorkflowMetadata)> {
        let (start, end) = keys::child_range(def.name());
        let rows = self
            .world
            .rows
            .borrow()
            .meta
            .range(start..end)
            .map(|(k, v)| (k.clone(), v.clone()))
            .collect();
        self.world.engine.borrow().list_instances(def, rows).expect("readable")
    }

    fn state<I, O>(
        &self,
        def: &WorkflowDef<I, O>,
        id: &str,
    ) -> Result<WorkflowState, memable::StateError> {
        let key = keys::metadata_key(def.name(), id);
        let live = self.world.senders.borrow().get(&key).map(|c| c.borrow().state.clone());
        self.world.engine.borrow().state(def, id, live, Ok(self.meta_row(def, id)))
    }

    fn output<O: Value>(&self, result: WaitResult<O>) -> O {
        let done = result.unwrap_completed();
        let row = self.world.rows.borrow().steps.get(&done.output_key()).cloned();
        done.output(row, O::NAME, parse::<O>).expect("readable")
    }

    fn seed<I, O>(&self, def: &WorkflowDef<I, O>, id: &str, status: MetadataStatus) {
        let meta = WorkflowMetadata::new_at(status, 1);
        let write = memable::metadata::write_metadata(def.name(), id, &meta);
        self.world.rows.borrow_mut().commit(vec![write]);
    }
}

fn wf() -> WorkflowDef<(), ()> {
    WorkflowDef::new("wf")
}

fn counter() -> (Rc<Cell<u32>>, Rc<Cell<u32>>) {
    let c = Rc::new(Cell::new(0));
    (Rc::clone(&c), c)
}

fn bump(c: &Cell<u32>) -> u32 {
    let n = c.get();
    c.set(n + 1);
    n
}

fn is_failed_with<O>(r: &WaitResult<O>, text: &str) -> bool {
    matches!(r, WaitResult::Failed(msg) if msg.contains(text))
}

// --- Workflows ---

#[test]
fn simple_workflow_completes() {
    let add: WorkflowDef<(), ()> = WorkflowDef::new("add");
    let mut engine = test_engine();
    engine.register(&add, |ctx| {
        let a: i32 = ctx.step("a", || Ok(1))?;
        let b: i32 = ctx.step("b", || Ok(2))?;
        assert_eq!(a + b, 3);
        Ok(())
    });
    engine.start();
    let (_, state) = engine.invoke(&add).unwrap();
    let _ = state.unwrap_completed();
}

#[test]
fn memoisation_on_resume() {
    let memo: WorkflowDef<(), ()> = WorkflowDef::new("memo");
    let (counter, c) = counter();
    let attempts = Cell::new(0);
    let mut engine = test_engine();
    engine.register(&memo, move |ctx| {
        let _: String = ctx.step("s1", || {
            bump(&c);
            Ok("hello".to_string())
        })?;
        let _: String = ctx.step("s2", || {
            bump(&c);
            if bump(&attempts) == 0 {
                return Err(StepError::retryable("transient"));
            }
            Ok("world".to_string())
        })?;
        Ok(())
    });
    engine.start();

    let (id, state) = engine.invoke(&memo).unwrap();
    assert!(state.is_failed());
    assert_eq!(counter.get(), 2);

    counter.set(0);
    let state = engine.resume(&memo, &id).unwrap();
    let _ = state.unwrap_completed();
    assert_eq!(counter.get(), 1);
}

#[test]
fn step_error_produces_failed_state() {
    let mut engine = test_engine();
    engine.register(&wf(), |ctx| {
        let _: String = ctx.step("fail", || Err(StepError::permanent("boom")))?;
        Ok(())
    });
    engine.start();
    let (_, state) = engine.invoke(&wf()).unwrap();
    assert!(state.is_failed());
}

#[test]
fn different_instances_have_separate_caches() {
    let (counter, c) = counter();
    let mut engine = test_engine();
    engine.register(&wf(), move |ctx| {
        let _: i32 = ctx.step("x", || {
            bump(&c);
            Ok(1)
        })?;
        Ok(())
    });
    engine.start();
    engine.invoke(&wf()).unwrap();
    engine.invoke(&wf()).unwrap();
    assert_eq!(counter.get(), 2);
}

#[test]
fn invoke_before_start_fails() {
    let mut engine = test_engine();
    engine.register(&wf(), |_| Ok(()));
    assert!(matches!(engine.invoke(&wf()), Err(EngineError::NotStarted)));
}

#[test]
fn invoke_unknown_workflow_fails() {
    let mut engine = test_engine();
    engine.start();
    assert!(matches!(engine.invoke(&wf()), Err(EngineError::WorkflowNotFound(_))));
}

#[test]
fn invoke_after_wait_all_fails() {
    let mut engine = test_engine();
    engine.register(&wf(), |_| Ok(()));
    engine.start();
    engine.world.engine.borrow_mut().wait_all();
    assert!(matches!(engine.invoke(&wf()), Err(EngineError::NotStarted)));
}

#[test]
fn invoke_after_stop_fails() {
    let mut engine = test_engine();
    engine.register(&wf(), |_| Ok(()));
    engine.start();
    engine.world.engine.borrow_mut().stop();
    assert!(matches!(engine.invoke(&wf()), Err(EngineError::NotStarted)));
}

#[test]
fn status_persisted_and_restored_on_resume() {
    let (step_counter, c) = counter();
    let attempts = Cell::new(0);
    let mut engine = test_engine();
    engine.register(&wf(), move |ctx| {
        ctx.set_status("step-one");
        let _: String = ctx.step("s1", || {
            bump(&c);
            Ok("one".to_string())
        })?;
        ctx.set_status("step-two");
        let _: String = ctx.step("s2", || {
            bump(&c);
            if bump(&attempts) == 0 {
                return Err(StepError::retryable("transient"));
            }
            Ok("two".to_string())
        })?;
        Ok(())
    });
    engine.start();
    let (id, state) = engine.invoke(&wf()).unwrap();
    assert!(state.is_failed());
    assert_eq!(step_counter.get(), 2);

    step_counter.set(0);
    let state = engine.resume(&wf(), &id).unwrap();
    assert_eq!(state.unwrap_completed().status(), Some("step-two"));
    assert_eq!(step_counter.get(), 1);
}

#[test]
fn subscribers_not_notified_during_replay() {
    let attempts = Cell::new(0);
    let mut engine = test_engine();
    engine.register(&wf(), move |ctx| {
        ctx.set_status("phase-1");
        let _: i32 = ctx.step("s1", || Ok(1))?;
        ctx.set_status("phase-2");
        let _: i32 = ctx.step("s2", || {
            if bump(&attempts) == 0 {
                return Err(StepError::retryable("fail first time"));
            }
            Ok(2)
        })?;
        Ok(())
    });
    engine.start();
    let (id, _) = engine.invoke(&wf()).unwrap();
    engine.resume(&wf(), &id).unwrap();
    let announced = &engine.last.as_ref().unwrap().borrow().announced;
    assert_eq!(announced, &vec![WorkflowState::Completed(Some("phase-2".into()))]);
}

#[test]
fn metadata_completed_on_success() {
    let mut engine = test_engine();
    engine.register(&wf(), |ctx| ctx.step("s1", || Ok(1)).map(|_: i32| ()));
    engine.start();
    let (id, _) = engine.invoke(&wf()).unwrap();
    let meta = engine.get_metadata(&wf(), &id).unwrap();
    assert_eq!(*meta.status(), MetadataStatus::Completed(None));
    assert!(meta.completed_at().is_some());
}

#[test]
fn metadata_failed_on_error() {
    let mut engine = test_engine();
    engine.register(&wf(), |ctx| {
        let _: String = ctx.step("fail", || Err(StepError::permanent("boom")))?;
        Ok(())
    });
    engine.start();
    let (id, _) = engine.invoke(&wf()).unwrap();
    let meta = engine.get_metadata(&wf(), &id).unwrap();
    assert!(matches!(meta.status(), MetadataStatus::Failed(msg) if msg.contains("boom")));
    assert!(meta.completed_at().is_some());
}

#[test]
fn metadata_updated_after_resume() {
    let attempts = Cell::new(0);
    let mut engine = test_engine();
    engine.register(&wf(), move |ctx| {
        let _: i32 = ctx.step("s1", || {
            if bump(&attempts) == 0 {
                return Err(StepError::retryable("transient"));
            }
            Ok(1)
        })?;
        Ok(())
    });
    engine.start();
    let (id, _) = engine.invoke(&wf()).unwrap();
    let meta = engine.get_metadata(&wf(), &id).unwrap();
    assert!(matches!(meta.status(), MetadataStatus::Failed(_)));
    engine.resume(&wf(), &id).unwrap();
    let meta = engine.get_metadata(&wf(), &id).unwrap();
    assert_eq!(*meta.status(), MetadataStatus::Completed(None));
}

#[test]
fn list_instances_filters_by_workflow_name() {
    let alpha: WorkflowDef<(), ()> = WorkflowDef::new("alpha");
    let beta: WorkflowDef<(), ()> = WorkflowDef::new("beta");
    let nonexistent: WorkflowDef<(), ()> = WorkflowDef::new("nonexistent");
    let mut engine = test_engine();
    engine.register(&alpha, |_| Ok(()));
    engine.register(&beta, |_| Ok(()));
    engine.start();
    engine.invoke(&alpha).unwrap();
    engine.invoke(&alpha).unwrap();
    engine.invoke(&beta).unwrap();
    assert_eq!(engine.list_instances(&alpha).len(), 2);
    assert_eq!(engine.list_instances(&beta).len(), 1);
    assert!(engine.list_instances(&nonexistent).is_empty());
}

#[test]
fn get_metadata_returns_none_for_unknown() {
    let mut engine = test_engine();
    engine.start();
    assert!(engine.get_metadata(&wf(), "no-such-id").is_none());
}

// --- Steps ---

#[test]
fn timed_out_step_not_persisted() {
    let (attempts, a) = counter();
    let mut engine = test_engine();
    engine.register(&wf(), move |ctx| {
        let step = ctx.core.step("flaky").timeout(Duration::from_millis(100));
        let _: i32 = ctx.attempts(step, || {
            if bump(&a) == 0 {
                return Attempt::TimedOut;
            }
            Attempt::Returned(Ok(42))
        })?;
        Ok(())
    });
    engine.start();
    let (id, state) = engine.invoke(&wf()).unwrap();
    assert!(is_failed_with(&state, "timed out"));
    assert_eq!(attempts.get(), 1);
    let state = engine.resume(&wf(), &id).unwrap();
    let _ = state.unwrap_completed();
    assert_eq!(attempts.get(), 2);
}

#[test]
fn timeout_applies_per_attempt() {
    let (attempts, a) = counter();
    let mut engine = test_engine();
    engine.register(&wf(), move |ctx| {
        let step = ctx
            .core
            .step("s1")
            .timeout(Duration::from_millis(50))
            .retry(RetryPolicy::fixed(2, Duration::from_millis(10)));
        let _: i32 = ctx.attempts(step, || {
            if bump(&a) == 0 {
                return Attempt::TimedOut;
            }
            Attempt::Returned(Ok(1))
        })?;
        Ok(())
    });
    engine.start();
    let (_, state) = engine.invoke(&wf()).unwrap();
    assert!(is_failed_with(&state, "timed out"));
    assert_eq!(attempts.get(), 1);
}

#[test]
fn timeout_skipped_on_cache_hit() {
    let (counter, c) = counter();
    let mut engine = test_engine();
    engine.register(&wf(), move |ctx| {
        let step = ctx.core.step("s1").timeout(Duration::from_parts(0, 1));
        let _: i32 = ctx.run(step, || {
            bump(&c);
            Ok(1)
        })?;
        Ok(())
    });
    engine.start();
    let (id, _) = engine.invoke(&wf()).unwrap();
    assert_eq!(counter.get(), 1);
    counter.set(0);
    let state = engine.resume(&wf(), &id).unwrap();
    let _ = state.unwrap_completed();
    assert_eq!(counter.get(), 0);
}

#[test]
fn resume_rejects_slash_in_instance_id() {
    let mut engine = test_engine();
    engine.register(&wf(), |_| Ok(()));
    engine.start();
    let Err(err) = engine.resume(&wf(), "bad/id") else {
        panic!("expected InvalidKey error");
    };
    assert!(matches!(err, EngineError::InvalidKey { label: "instance_id", .. }));
}

#[test]
fn signal_rejects_slash_in_instance_id() {
    let wait: SuspendPoint<bool> = SuspendPoint::new("wait:v1");
    let mut engine = test_engine();
    engine.register(&wf(), |ctx| ctx.suspend(&SuspendPoint::new("wait:v1")).map(|_: bool| ()));
    engine.start();
    engine.invoke(&wf()).unwrap();
    let Err(err) = engine.signal(&wf(), "bad/id", &wait, true) else {
        panic!("expected InvalidKey error");
    };
    assert!(matches!(err, EngineError::InvalidKey { label: "instance_id", .. }));
}

#[test]
fn signal_rejects_when_step_does_not_exist() {
    let wrong: SuspendPoint<bool> = SuspendPoint::new("wrong-key:v1");
    let mut engine = test_engine();
    engine.register(&wf(), |ctx| ctx.suspend(&SuspendPoint::new("wait:v1")).map(|_: bool| ()));
    engine.start();
    let (id, _) = engine.invoke(&wf()).unwrap();
    let Err(err) = engine.signal(&wf(), &id, &wrong, true) else {
        panic!("expected SignalRejected error");
    };
    assert!(matches!(err, EngineError::SignalRejected { ref key, .. } if key == "wrong-key:v1"));
}

#[test]
fn signal_rejects_already_completed_step() {
    let gate: SuspendPoint<bool> = SuspendPoint::new("gate:v1");
    let mut engine = test_engine();
    engine.register(&wf(), |ctx| {
        let _: bool = ctx.suspend(&SuspendPoint::new("gate:v1"))?;
        let _: bool = ctx.suspend(&SuspendPoint::new("gate2:v1"))?;
        Ok(())
    });
    engine.start();
    let (id, _) = engine.invoke(&wf()).unwrap();
    engine.signal(&wf(), &id, &gate, true).unwrap();
    let Err(err) = engine.signal(&wf(), &id, &gate, true) else {
        panic!("expected SignalSuperseded error");
    };
    assert!(matches!(err, EngineError::SignalSuperseded { ref key } if key == "gate:v1"));
}

#[test]
fn signal_rejects_pre_completing_future_step() {
    let second: SuspendPoint<String> = SuspendPoint::new("second:v1");
    let mut engine = test_engine();
    engine.register(&wf(), |ctx| {
        let _: bool = ctx.suspend(&SuspendPoint::new("first:v1"))?;
        let _: String = ctx.suspend(&SuspendPoint::new("second:v1"))?;
        Ok(())
    });
    engine.start();
    let (id, _) = engine.invoke(&wf()).unwrap();
    let Err(err) = engine.signal(&wf(), &id, &second, "sneaky".to_string()) else {
        panic!("expected SignalRejected error");
    };
    assert!(matches!(err, EngineError::SignalRejected { ref key, .. } if key == "second:v1"));
}

#[test]
fn signal_type_mismatch_returns_error() {
    let other: SuspendPoint<String> = SuspendPoint::new("gate:v1");
    let mut engine = test_engine();
    engine.register(&wf(), |ctx| ctx.suspend(&SuspendPoint::new("gate:v1")).map(|_: i32| ()));
    engine.start();
    let (id, _) = engine.invoke(&wf()).unwrap();
    let state = engine.signal(&wf(), &id, &other, "wrong type".to_string()).unwrap();
    assert!(is_failed_with(&state, "type mismatch"));
}

#[test]
fn signal_type_mismatch_caught_for_binary_compatible_types() {
    let other: SuspendPoint<u32> = SuspendPoint::new("gate:v1");
    let mut engine = test_engine();
    engine.register(&wf(), |ctx| ctx.suspend(&SuspendPoint::new("gate:v1")).map(|_: i32| ()));
    engine.start();
    let (id, _) = engine.invoke(&wf()).unwrap();
    let state = engine.signal(&wf(), &id, &other, 42).unwrap();
    assert!(is_failed_with(&state, "type mismatch"));
}

#[test]
fn retryable_error_retries_then_exhausts() {
    let (attempts, a) = counter();
    let mut engine = test_engine();
    engine.register(&wf(), move |ctx| {
        let step = ctx.core.step("s1").retry(RetryPolicy::fixed(2, Duration::from_millis(10)));
        let _: i32 = ctx.run(step, || {
            bump(&a);
            Err(StepError::retryable("boom"))
        })?;
        Ok(())
    });
    engine.start();
    let (_, state) = engine.invoke(&wf()).unwrap();
    assert!(is_failed_with(&state, "3 attempts"));
    assert_eq!(attempts.get(), 3);
}

#[test]
fn permanent_error_skips_retry() {
    let (attempts, a) = counter();
    let mut engine = test_engine();
    engine.register(&wf(), move |ctx| {
        let step = ctx.core.step("s1").retry(RetryPolicy::fixed(3, Duration::from_millis(10)));
        let _: i32 = ctx.run(step, || {
            bump(&a);
            Err(StepError::permanent("fatal"))
        })?;
        Ok(())
    });
    engine.start();
    let (_, state) = engine.invoke(&wf()).unwrap();
    assert!(is_failed_with(&state, "fatal"));
    assert_eq!(attempts.get(), 1);
}

#[test]
fn step_succeeds_on_second_attempt() {
    let (attempts, a) = counter();
    let mut engine = test_engine();
    engine.register(&wf(), move |ctx| {
        let step = ctx.core.step("s1").retry(RetryPolicy::fixed(3, Duration::from_millis(10)));
        let v: i32 = ctx.run(step, || {
            if bump(&a) == 0 {
                return Err(StepError::retryable("transient"));
            }
            Ok(42)
        })?;
        assert_eq!(v, 42);
        Ok(())
    });
    engine.start();
    let (_, state) = engine.invoke(&wf()).unwrap();
    let _ = state.unwrap_completed();
    assert_eq!(attempts.get(), 2);
}

#[test]
fn exponential_backoff_delays() {
    let (attempts, a) = counter();
    let mut engine = test_engine();
    engine.register(&wf(), move |ctx| {
        let step = ctx.core.step("s1").retry(RetryPolicy::exponential(3, Duration::from_secs(1)));
        let _: i32 = ctx.run(step, || {
            bump(&a);
            Err(StepError::retryable("fail"))
        })?;
        Ok(())
    });
    engine.start();
    engine.invoke(&wf()).unwrap();
    assert_eq!(attempts.get(), 4);
    let slept: Vec<u64> = engine.world.slept.borrow().iter().map(|d| d.as_secs()).collect();
    assert_eq!(slept, vec![1, 2, 4]);
}

fn attempts_with_default(default_retries: u32, choose: fn(StepBuilder) -> StepBuilder) -> u32 {
    let (attempts, a) = counter();
    let policy = RetryPolicy::fixed(default_retries, Duration::from_millis(10));
    let mut engine = sim_of(Engine::builder().with_store(()).default_retry(policy));
    engine.register(&wf(), move |ctx| {
        let step = choose(ctx.core.step("s1"));
        let _: i32 = ctx.run(step, || {
            bump(&a);
            Err(StepError::retryable("boom"))
        })?;
        Ok(())
    });
    engine.start();
    engine.invoke(&wf()).unwrap();
    attempts.get()
}

#[test]
fn engine_default_retry_applies() {
    assert_eq!(attempts_with_default(2, |step| step), 3);
}

#[test]
fn per_step_retry_overrides_default() {
    let own = |step: StepBuilder| step.retry(RetryPolicy::fixed(1, Duration::from_millis(10)));
    assert_eq!(attempts_with_default(5, own), 2);
}

#[test]
fn no_retry_overrides_default() {
    assert_eq!(attempts_with_default(3, StepBuilder::no_retry), 1);
}

#[test]
fn dead_letter_persisted_and_resume_re_executes() {
    let (attempts, a) = counter();
    let mut engine = test_engine();
    engine.register(&wf(), move |ctx| {
        let step = ctx.core.step("s1").retry(RetryPolicy::fixed(1, Duration::from_millis(10)));
        let _: i32 = ctx.run(step, || {
            if bump(&a) < 4 {
                return Err(StepError::retryable("not yet"));
            }
            Ok(100)
        })?;
        Ok(())
    });
    engine.start();
    let (id, state) = engine.invoke(&wf()).unwrap();
    assert!(state.is_failed());
    assert_eq!(attempts.get(), 2);
    let state = engine.resume(&wf(), &id).unwrap();
    assert!(state.is_failed());
    assert_eq!(attempts.get(), 4);
    let state = engine.resume(&wf(), &id).unwrap();
    let _ = state.unwrap_completed();
}

#[test]
fn retryable_without_policy_behaves_like_step_failed() {
    let mut engine = test_engine();
    engine.register(&wf(), |ctx| {
        let _: i32 = ctx.step("s1", || Err(StepError::retryable("boom")))?;
        Ok(())
    });
    engine.start();
    let (_, state) = engine.invoke(&wf()).unwrap();
    assert!(is_failed_with(&state, "boom") && !is_failed_with(&state, "attempts"));
}

// --- Suspend points and timers ---

#[test]
fn suspend_then_signal_completes() {
    let wait: SuspendPoint<String> = SuspendPoint::new("wait:v1");
    let mut engine = test_engine();
    engine.register(&wf(), |ctx| {
        let _: i32 = ctx.step("s1", || Ok(1))?;
        let payload: String = ctx.suspend(&SuspendPoint::new("wait:v1"))?;
        assert_eq!(payload, "hello");
        Ok(())
    });
    engine.start();
    let (id, state) = engine.invoke(&wf()).unwrap();
    assert!(matches!(
        state,
        WaitResult::Suspended { ref key, ref status } if key == "wait:v1" && status == "wait:v1"
    ));
    let meta = engine.get_metadata(&wf(), &id).unwrap();
    assert!(
        matches!(meta.status(), MetadataStatus::Suspended { status, .. } if status == "wait:v1")
    );
    let state = engine.signal(&wf(), &id, &wait, "hello".to_string()).unwrap();
    let _ = state.unwrap_completed();
    let meta = engine.get_metadata(&wf(), &id).unwrap();
    assert_eq!(*meta.status(), MetadataStatus::Completed(None));
}

#[test]
fn suspend_with_custom_status() {
    let approval: SuspendPoint<bool> = SuspendPoint::new("approval:v1");
    let mut engine = test_engine();
    engine.register(&wf(), |ctx| {
        let gate: SuspendPoint<bool> = SuspendPoint::new("approval:v1");
        let point = ctx.core.suspend(&gate).status("Waiting for manager approval");
        ctx.wait_at(point).map(|_: bool| ())
    });
    engine.start();
    let (id, state) = engine.invoke(&wf()).unwrap();
    assert!(matches!(
        state,
        WaitResult::Suspended { ref key, ref status }
            if key == "approval:v1" && status == "Waiting for manager approval"
    ));
    let meta = engine.get_metadata(&wf(), &id).unwrap();
    assert!(matches!(
        meta.status(),
        MetadataStatus::Suspended { status, .. } if status == "Waiting for manager approval"
    ));
    let state = engine.signal(&wf(), &id, &approval, true).unwrap();
    let _ = state.unwrap_completed();
}

#[test]
fn memoised_steps_preserved_across_suspend() {
    let gate: SuspendPoint<String> = SuspendPoint::new("gate:v1");
    let (counter, c) = counter();
    let mut engine = test_engine();
    engine.register(&wf(), move |ctx| {
        let _: i32 = ctx.step("s1", || {
            bump(&c);
            Ok(42)
        })?;
        let _: String = ctx.suspend(&SuspendPoint::new("gate:v1"))?;
        let _: i32 = ctx.step("s2", || {
            bump(&c);
            Ok(99)
        })?;
        Ok(())
    });
    engine.start();
    let (id, _) = engine.invoke(&wf()).unwrap();
    assert_eq!(counter.get(), 1);
    counter.set(0);
    let state = engine.signal(&wf(), &id, &gate, "go".to_string()).unwrap();
    let _ = state.unwrap_completed();
    assert_eq!(counter.get(), 1);
}

#[test]
fn resume_without_signal_stays_suspended() {
    let mut engine = test_engine();
    engine.register(&wf(), |ctx| ctx.suspend(&SuspendPoint::new("wait:v1")).map(|_: String| ()));
    engine.start();
    let (id, _) = engine.invoke(&wf()).unwrap();
    let state = engine.resume(&wf(), &id).unwrap();
    assert!(matches!(
        state,
        WaitResult::Suspended { ref key, ref status } if key == "wait:v1" && status == "wait:v1"
    ));
}

#[test]
fn resume_without_signal_reports_the_custom_status_again() {
    let mut engine = test_engine();
    engine.register(&wf(), |ctx| {
        ctx.set_status("working");
        let gate: SuspendPoint<bool> = SuspendPoint::new("approval:v1");
        let point = ctx.core.suspend(&gate).status("Waiting for manager approval");
        ctx.wait_at(point).map(|_: bool| ())
    });
    engine.start();
    let (id, _) = engine.invoke(&wf()).unwrap();
    for _ in 0..2 {
        let state = engine.resume(&wf(), &id).unwrap();
        assert!(matches!(
            state,
            WaitResult::Suspended { ref key, ref status }
                if key == "approval:v1" && status == "Waiting for manager approval"
        ));
    }
}

#[test]
fn completed_status_is_never_that_of_a_suspension() {
    let mut engine = test_engine();
    engine.register(&wf(), |ctx| {
        let _ = ctx.suspend(&SuspendPoint::<bool>::new("gate:v1"));
        Ok(())
    });
    engine.start();
    let (_, state) = engine.invoke(&wf()).unwrap();
    assert_eq!(state.unwrap_completed().status(), None);
}

#[test]
fn completed_status_is_the_last_one_set() {
    let mut engine = test_engine();
    engine.register(&wf(), |ctx| {
        ctx.set_status("getting ready");
        let _ = ctx.suspend(&SuspendPoint::<bool>::new("gate:v1"));
        Ok(())
    });
    engine.start();
    let (id, state) = engine.invoke(&wf()).unwrap();
    assert_eq!(state.unwrap_completed().status(), Some("getting ready"));
    let meta = engine.get_metadata(&wf(), &id).unwrap();
    assert_eq!(*meta.status(), MetadataStatus::Completed(Some("getting ready".into())));
}

#[test]
fn instances_of_two_workflows_do_not_share_a_state() {
    let other: WorkflowDef<(), ()> = WorkflowDef::new("other");
    let mut engine = test_engine();
    engine.register(&wf(), |ctx| ctx.suspend(&SuspendPoint::new("gate:v1")).map(|_: bool| ()));
    engine.start();
    let (id, _) = engine.invoke(&wf()).unwrap();
    assert!(engine.state(&wf(), &id).is_ok());
    assert!(matches!(
        engine.state(&other, &id),
        Err(memable::StateError::NotFound { .. })
    ));
}

#[test]
fn signal_rejects_a_step_that_never_waited() {
    let regular: SuspendPoint<i32> = SuspendPoint::new("s1");
    let mut engine = test_engine();
    engine.register(&wf(), |ctx| {
        let _: i32 = ctx.step("s1", || Ok(1))?;
        ctx.suspend(&SuspendPoint::<bool>::new("gate:v1")).map(|_| ())
    });
    engine.start();
    let (id, _) = engine.invoke(&wf()).unwrap();
    let row = || engine.world.rows.borrow().steps.get(&format!("wf/{id}/s1")).cloned();
    let before = row();
    let meta = engine.meta_row(&wf(), &id);
    assert_eq!(
        execution::claim_suspended_step("wf", &id, "s1", vec![4], "i32", row(), meta),
        Err(EngineError::SignalRejected {
            key: "s1".into(),
            reason: "step is not suspended".into()
        })
    );
    let Err(err) = engine.signal(&wf(), &id, &regular, 2) else {
        panic!("expected SignalRejected error");
    };
    assert!(matches!(err, EngineError::SignalRejected { ref key, .. } if key == "s1"));
    let after = engine.world.rows.borrow().steps.get(&format!("wf/{id}/s1")).cloned();
    assert_eq!(after, before);
}

#[test]
fn step_rejects_suspended_entry() {
    let use_step = Rc::new(Cell::new(false));
    let flag = Rc::clone(&use_step);
    let mut engine = test_engine();
    engine.register(&wf(), move |ctx| {
        if flag.get() {
            let _: String = ctx.step("action:v1", || Ok("x".into()))?;
        } else {
            let _: String = ctx.suspend(&SuspendPoint::new("action:v1"))?;
        }
        Ok(())
    });
    engine.start();
    let (id, state) = engine.invoke(&wf()).unwrap();
    assert!(matches!(
        state,
        WaitResult::Suspended { ref key, ref status }
            if key == "action:v1" && status == "action:v1"
    ));
    use_step.set(true);
    let state = engine.resume(&wf(), &id).unwrap();
    assert!(is_failed_with(&state, "suspended entry"));
}

#[test]
fn multiple_suspend_points() {
    let first: SuspendPoint<i32> = SuspendPoint::new("first:v1");
    let second: SuspendPoint<i32> = SuspendPoint::new("second:v1");
    let mut engine = test_engine();
    engine.register(&wf(), |ctx| {
        let a: i32 = ctx.suspend(&SuspendPoint::new("first:v1"))?;
        let b: i32 = ctx.suspend(&SuspendPoint::new("second:v1"))?;
        assert_eq!(a + b, 3);
        Ok(())
    });
    engine.start();
    let (id, state) = engine.invoke(&wf()).unwrap();
    assert!(matches!(
        state,
        WaitResult::Suspended { ref key, ref status } if key == "first:v1" && status == "first:v1"
    ));
    let state = engine.signal(&wf(), &id, &first, 1).unwrap();
    assert!(matches!(
        state,
        WaitResult::Suspended { ref key, ref status }
            if key == "second:v1" && status == "second:v1"
    ));
    let state = engine.signal(&wf(), &id, &second, 2).unwrap();
    let _ = state.unwrap_completed();
}

#[test]
fn suspend_after_failed_step_on_resume() {
    let gate: SuspendPoint<String> = SuspendPoint::new("gate:v1");
    let attempts = Cell::new(0);
    let mut engine = test_engine();
    engine.register(&wf(), move |ctx| {
        let _: i32 = ctx.step("s1", || {
            if bump(&attempts) == 0 {
                return Err(StepError::retryable("transient"));
            }
            Ok(1)
        })?;
        ctx.suspend(&SuspendPoint::new("gate:v1")).map(|_: String| ())
    });
    engine.start();
    let (id, state) = engine.invoke(&wf()).unwrap();
    assert!(state.is_failed());
    let state = engine.resume(&wf(), &id).unwrap();
    assert!(matches!(
        state,
        WaitResult::Suspended { ref key, ref status } if key == "gate:v1" && status == "gate:v1"
    ));
    let state = engine.signal(&wf(), &id, &gate, "done".to_string()).unwrap();
    let _ = state.unwrap_completed();
}

#[test]
fn timer_fires_and_completes_workflow() {
    let (counter, c) = counter();
    let mut engine = test_engine();
    engine.register(&wf(), move |ctx| {
        let _: i32 = ctx.step("s1", || {
            bump(&c);
            Ok(1)
        })?;
        ctx.timer("wait:v1", Duration::from_secs(5))?;
        let _: i32 = ctx.step("s2", || {
            bump(&c);
            Ok(2)
        })?;
        Ok(())
    });
    engine.start();
    let (id, state) = engine.invoke(&wf()).unwrap();
    assert!(state.is_suspended());
    assert_eq!(counter.get(), 1);
    engine.sleep(4);
    engine.poll_timers().unwrap();
    assert_eq!(counter.get(), 1);
    engine.sleep(1);
    engine.poll_timers().unwrap();
    let meta = engine.get_metadata(&wf(), &id).unwrap();
    assert_eq!(*meta.status(), MetadataStatus::Completed(None));
    assert_eq!(counter.get(), 2);
    assert!(engine.world.rows.borrow().timers.is_empty());
}

#[test]
fn timer_with_steps_before_and_after() {
    let (counter, c) = counter();
    let mut engine = test_engine();
    engine.register(&wf(), move |ctx| {
        let mut count = |ctx: &mut Ctx, key: &str| {
            ctx.step(key, || {
                bump(&c);
                Ok(1)
            })
            .map(|_: i32| ())
        };
        count(ctx, "before")?;
        ctx.timer("t1:v1", Duration::from_secs(0))?;
        count(ctx, "between")?;
        ctx.timer("t2:v1", Duration::from_secs(0))?;
        count(ctx, "after")
    });
    engine.start();
    let (id, _) = engine.invoke(&wf()).unwrap();
    assert_eq!(counter.get(), 1);
    engine.poll_timers().unwrap();
    assert_eq!(counter.get(), 2);
    engine.poll_timers().unwrap();
    assert_eq!(counter.get(), 3);
    let meta = engine.get_metadata(&wf(), &id).unwrap();
    assert_eq!(*meta.status(), MetadataStatus::Completed(None));
}

#[test]
fn timer_after_signal_already_claimed() {
    let wait: SuspendPoint<()> = SuspendPoint::new("wait:v1");
    let (counter, c) = counter();
    let mut engine = test_engine();
    engine.register(&wf(), move |ctx| {
        ctx.timer("wait:v1", Duration::from_secs(60))?;
        bump(&c);
        Ok(())
    });
    engine.start();
    let (id, _) = engine.invoke(&wf()).unwrap();
    engine.signal(&wf(), &id, &wait, ()).unwrap();
    engine.sleep(61);
    engine.poll_timers().unwrap();
    assert_eq!(counter.get(), 1);
    let meta = engine.get_metadata(&wf(), &id).unwrap();
    assert_eq!(*meta.status(), MetadataStatus::Completed(None));
}

// --- Input, queries and recovery ---

#[test]
fn invoke_with_input_delivers_payload() {
    let def: WorkflowDef<i32, ()> = WorkflowDef::new("wf");
    let mut engine = test_engine();
    engine.register_with_input(&def, |_, val: i32| {
        assert_eq!(val, 42);
        Ok(())
    });
    engine.start();
    let (_, state) = engine.invoke_with(&def, 42).unwrap();
    let _ = state.unwrap_completed();
}

#[test]
fn input_returns_none_when_not_provided() {
    let mut engine = test_engine();
    engine.register(&wf(), |ctx| {
        assert!(ctx.input::<String>()?.is_none());
        Ok(())
    });
    engine.start();
    let (_, state) = engine.invoke(&wf()).unwrap();
    let _ = state.unwrap_completed();
}

#[test]
fn input_type_mismatch() {
    let def: WorkflowDef<String, ()> = WorkflowDef::new("wf");
    let mut engine = test_engine();
    engine.register_with_input(&def, |ctx, _: String| ctx.input::<i32>().map(|_| ()));
    engine.start();
    let (_, state) = engine.invoke_with(&def, "not an i32".to_string()).unwrap();
    assert!(is_failed_with(&state, "type mismatch"));
}

#[test]
fn input_preserved_across_resume() {
    let def: WorkflowDef<String, String> = WorkflowDef::new("wf");
    let calls = Cell::new(0);
    let mut engine = test_engine();
    engine.register_with_input(&def, move |ctx, name: String| {
        if bump(&calls) == 0 {
            return Err(EngineError::step_failed("fail:v1", "deliberate failure", false));
        }
        ctx.step("greet:v1", || Ok(format!("Hello, {name}!")))
    });
    engine.start();
    let (id, state) = engine.invoke_with(&def, "Alice".to_string()).unwrap();
    assert!(state.is_failed());
    let state = engine.resume(&def, &id).unwrap();
    assert_eq!(engine.output(state), "Hello, Alice!");
}

#[test]
fn workflow_without_its_input_fails() {
    let def: WorkflowDef<i32, ()> = WorkflowDef::new("wf");
    let mut engine = test_engine();
    engine.register_with_input(&def, |_, _: i32| Ok(()));
    engine.start();
    let state = engine.resume(&def, "made-up").unwrap();
    let text = EngineError::InputMissing { workflow: "wf".into() }.to_string();
    assert!(is_failed_with(&state, &text));
}

#[test]
fn auto_resume_running_instances_on_start() {
    let (counter, c) = counter();
    let mut engine = test_engine();
    engine.seed(&wf(), "crashed-instance", MetadataStatus::Running);
    engine.register(&wf(), move |ctx| {
        let _: i32 = ctx.step("s1", || {
            bump(&c);
            Ok(42)
        })?;
        Ok(())
    });
    engine.start();
    assert_eq!(counter.get(), 1);
}

#[test]
fn resume_on_start_false_skips_recovery() {
    let (counter, c) = counter();
    let mut engine = sim_of(Engine::builder().with_store(()).resume_on_start(false));
    engine.seed(&wf(), "orphan", MetadataStatus::Running);
    engine.register(&wf(), move |_| {
        bump(&c);
        Ok(())
    });
    engine.start();
    assert_eq!(counter.get(), 0);
}

#[test]
fn auto_resume_skips_suspended_instances() {
    let (counter, c) = counter();
    let mut engine = test_engine();
    let waiting = MetadataStatus::Suspended {
        key: "approval:v1".to_string(),
        status: "awaiting approval".to_string(),
    };
    engine.seed(&wf(), "waiting", waiting);
    engine.register(&wf(), move |_| {
        bump(&c);
        Ok(())
    });
    engine.start();
    assert_eq!(counter.get(), 0);
}

#[test]
fn state_returns_completed_for_finished_workflow() {
    let mut engine = test_engine();
    engine.register(&wf(), |_| Ok(()));
    engine.start();
    let (id, _) = engine.invoke(&wf()).unwrap();
    assert_eq!(engine.state(&wf(), &id), Ok(WorkflowState::Completed(None)));
}

#[test]
fn state_returns_suspended_for_waiting_workflow() {
    let mut engine = test_engine();
    engine.register(&wf(), |ctx| ctx.suspend(&SuspendPoint::new("gate:v1")).map(|_: bool| ()));
    engine.start();
    let (id, _) = engine.invoke(&wf()).unwrap();
    let state = engine.state(&wf(), &id).unwrap();
    assert!(matches!(state, WorkflowState::Suspended { ref key, .. } if key == "gate:v1"));
}

#[test]
fn state_returns_started_for_stale_running() {
    let mut engine = test_engine();
    engine.start();
    engine.seed(&wf(), "stale-1", MetadataStatus::Running);
    assert_eq!(engine.state(&wf(), "stale-1"), Ok(WorkflowState::Started));
    let row = engine.meta_row(&wf(), "stale-1");
    let err = engine.world.engine.borrow().subscribe(&wf(), "stale-1", false, Ok(row)).unwrap_err();
    assert!(matches!(err, SubscribeError::StaleRunning { .. }));
}

#[test]
fn subscribe_after_completion_returns_snapshot() {
    let mut engine = test_engine();
    engine.register(&wf(), |_| Ok(()));
    engine.start();
    let (id, _) = engine.invoke(&wf()).unwrap();
    let row = engine.meta_row(&wf(), &id);
    let mut stream = engine.world.engine.borrow().subscribe(&wf(), &id, false, Ok(row)).unwrap();
    assert!(matches!(
        stream.poll_next(),
        StreamStep::Ready(Some(WorkflowState::Completed(None)))
    ));
    assert!(matches!(stream.poll_next(), StreamStep::Ready(None)));
}

// --- Retention ---

fn terminal_instances(engine: &mut Sim, n: usize) -> Vec<String> {
    engine.register(&wf(), |ctx| ctx.step("s1", || Ok(42)).map(|_: i32| ()));
    engine.start();
    (0..n).map(|_| engine.invoke(&wf()).unwrap().0).collect()
}

#[test]
fn retention_cleans_expired_completed_workflows() {
    let mut engine = test_engine();
    let id = terminal_instances(&mut engine, 1).remove(0);
    let step_key = format!("wf/{id}/s1");
    assert!(engine.world.rows.borrow().steps.contains_key(&step_key));
    engine.sleep(2);
    let cleaned = engine.cleanup_expired(Duration::from_secs(1), &TextMap::new());
    assert_eq!(cleaned, Ok(1));
    assert!(engine.get_metadata(&wf(), &id).is_none());
    assert!(!engine.world.rows.borrow().steps.contains_key(&step_key));
}

#[test]
fn retention_does_not_touch_suspended_workflows() {
    let mut engine = test_engine();
    engine.register(&wf(), |ctx| ctx.suspend(&SuspendPoint::new("gate:v1")).map(|_: bool| ()));
    engine.start();
    let (id, _) = engine.invoke(&wf()).unwrap();
    engine.seed(&wf(), "running", MetadataStatus::Running);
    engine.sleep(2);
    assert_eq!(engine.cleanup_expired(Duration::from_secs(1), &TextMap::new()), Ok(0));
    assert!(engine.get_metadata(&wf(), &id).is_some());
    assert!(engine.get_metadata(&wf(), "running").is_some());
}

#[test]
fn retention_per_workflow_override() {
    let long: WorkflowDef<(), ()> = WorkflowDef::new("long-lived");
    let short: WorkflowDef<(), ()> = WorkflowDef::new("short-lived");
    let mut engine = test_engine();
    engine.register(&long, |_| Ok(()));
    engine.register(&short, |_| Ok(()));
    engine.start();
    let (long_id, _) = engine.invoke(&long).unwrap();
    let (short_id, _) = engine.invoke(&short).unwrap();
    engine.sleep(2);
    let mut overrides = TextMap::new();
    overrides.insert("short-lived", Duration::from_secs(1));
    assert_eq!(engine.cleanup_expired(Duration::from_secs(10), &overrides), Ok(1));
    assert!(engine.get_metadata(&short, &short_id).is_none());
    assert!(engine.get_metadata(&long, &long_id).is_some());
}

#[test]
fn retention_no_op_when_nothing_expired() {
    let mut engine = test_engine();
    let id = terminal_instances(&mut engine, 1).remove(0);
    assert_eq!(engine.cleanup_expired(Duration::from_secs(100), &TextMap::new()), Ok(0));
    assert!(engine.get_metadata(&wf(), &id).is_some());
}

#[test]
fn retention_cleans_multiple_instances() {
    let mut engine = test_engine();
    terminal_instances(&mut engine, 3);
    engine.sleep(2);
    assert_eq!(engine.cleanup_expired(Duration::from_secs(1), &TextMap::new()), Ok(3));
    assert!(engine.list_instances(&wf()).is_empty());
    assert!(engine.world.rows.borrow().steps.is_empty());
}

#[test]
fn retention_spares_other_instances() {
    let mut engine = test_engine();
    let old = terminal_instances(&mut engine, 1).remove(0);
    engine.sleep(2);
    let (new, _) = engine.invoke(&wf()).unwrap();
    assert_eq!(engine.cleanup_expired(Duration::from_secs(1), &TextMap::new()), Ok(1));
    assert!(engine.get_metadata(&wf(), &old).is_none());
    assert!(engine.get_metadata(&wf(), &new).is_some());
    let left = engine.world.rows.borrow().keys_under(&format!("wf/{new}"));
    assert_eq!(left, vec![format!("wf/{new}/_output"), format!("wf/{new}/s1")]);
}

// --- Fan-out ---

#[test]
fn fan_out_basic_inline() {
    let parent: WorkflowDef<(), Vec<String>> = WorkflowDef::new("fan-parent");
    let mut engine = test_engine();
    engine.register(&parent, |ctx| {
        let items = vec!["hello".to_string(), "world".to_string(), "test".to_string()];
        ctx.fan_out_fail_fast("upper:v1", items, |child, item| {
            child.step("process:v1", || Ok(item.to_uppercase()))
        })
    });
    engine.start();
    let (id, state) = engine.invoke(&parent).unwrap();
    assert_eq!(engine.output(state), vec!["HELLO", "WORLD", "TEST"]);
    let rows = engine.world.rows.borrow();
    assert!(rows.steps.contains_key(&format!("fan-parent/{id}/upper:v1-1/process:v1")));
}

#[test]
fn fan_out_results_memoised() {
    let parent: WorkflowDef<(), Vec<i32>> = WorkflowDef::new("fan-memo");
    let (calls, c) = counter();
    let mut engine = test_engine();
    engine.register(&parent, move |ctx| {
        let c = Rc::clone(&c);
        ctx.fan_out_fail_fast("calc:v1", vec![10, 20, 30], move |child, item| {
            bump(&c);
            child.step("double:v1", || Ok(item * 2))
        })
    });
    engine.start();
    let (id, state) = engine.invoke(&parent).unwrap();
    assert_eq!(engine.output(state), vec![20, 40, 60]);
    assert_eq!(calls.get(), 3);
    calls.set(0);
    let state = engine.resume(&parent, &id).unwrap();
    assert_eq!(engine.output(state), vec![20, 40, 60]);
    assert_eq!(calls.get(), 0);
}

#[test]
fn fan_out_empty_items() {
    let parent: WorkflowDef<(), Vec<i32>> = WorkflowDef::new("fan-empty");
    let mut engine = test_engine();
    engine.register(&parent, |ctx| {
        ctx.fan_out_fail_fast("noop:v1", Vec::<i32>::new(), |_, item| Ok(item))
    });
    engine.start();
    let (_, state) = engine.invoke(&parent).unwrap();
    assert!(engine.output(state).is_empty());
}

#[test]
fn fan_out_child_failure_aborts_remaining() {
    let mut engine = test_engine();
    engine.register(&wf(), |ctx| {
        ctx.fan_out_fail_fast("fail:v1", vec![1, 2, 3], |child, item| {
            if item == 2 {
                return Err(EngineError::step_failed("boom", "child 2 failed", false));
            }
            child.step("id:v1", || Ok(item))
        })
        .map(|_: Vec<i32>| ())
    });
    engine.start();
    let (id, state) = engine.invoke(&wf()).unwrap();
    assert!(state.is_failed());
    assert!(engine.get_metadata(&wf(), &format!("{id}/fail:v1-2")).is_none());
}

#[test]
fn fan_out_child_metadata_written() {
    let mut engine = test_engine();
    engine.register(&wf(), |ctx| {
        let items = vec!["a".to_string(), "b".to_string()];
        ctx.fan_out_fail_fast("meta:v1", items, |child, item| {
            child.step("echo:v1", || Ok(item.clone()))
        })
        .map(|_: Vec<String>| ())
    });
    engine.start();
    let (parent_id, state) = engine.invoke(&wf()).unwrap();
    let _ = state.unwrap_completed();
    let all = engine.list_instances(&wf());
    let children =
        all.iter().filter(|(id, _)| id.starts_with(&format!("{parent_id}/"))).count();
    assert_eq!(children, 2);
    for (_, meta) in &all {
        assert!(!matches!(meta.status(), MetadataStatus::Running));
    }
}

#[test]
fn fan_out_collect_all_mixed() {
    let mut engine = test_engine();
    engine.register(&wf(), |ctx| {
        let results = ctx.fan_out_collect_all("mix:v1", vec![1, 2, 3], |child, item| {
            if item == 2 {
                return Err(EngineError::step_failed("boom", "child 2 failed", false));
            }
            child.step("id:v1", || Ok(item))
        })?;
        assert_eq!(results[0], Ok(1));
        let (child, message) = results[1].as_ref().unwrap_err();
        assert!(message.contains("child 2 failed"));
        assert!(child.contains("mix:v1-1"));
        assert_eq!(results[2], Ok(3));
        Ok(())
    });
    engine.start();
    let (_, state) = engine.invoke(&wf()).unwrap();
    let _ = state.unwrap_completed();
}

#[test]
fn fan_out_collect_all_memoised() {
    let (calls, c) = counter();
    let mut engine = test_engine();
    engine.register(&wf(), move |ctx| {
        let c = Rc::clone(&c);
        let results = ctx.fan_out_collect_all("memo:v1", vec![1, 2, 3], move |child, item| {
            bump(&c);
            if item == 2 {
                return Err(EngineError::step_failed("boom", "child 2 failed", false));
            }
            child.step("id:v1", || Ok(item * 10))
        })?;
        assert_eq!(results.len(), 3);
        assert_eq!(results[0], Ok(10));
        assert!(results[1].is_err());
        assert_eq!(results[2], Ok(30));
        Ok(())
    });
    engine.start();
    let (id, state) = engine.invoke(&wf()).unwrap();
    let _ = state.unwrap_completed();
    assert_eq!(calls.get(), 3);
    calls.set(0);
    let state = engine.resume(&wf(), &id).unwrap();
    let _ = state.unwrap_completed();
    assert_eq!(calls.get(), 0);
}

#[test]
fn fan_out_nested_key_isolation() {
    let parent: WorkflowDef<(), ()> = WorkflowDef::new("nested-keys");
    let mut engine = test_engine();
    engine.register(&parent, |ctx| {
        let own: String = ctx.step("work:v1", || Ok("parent-value".to_string()))?;
        assert_eq!(own, "parent-value");
        let items = vec!["a".to_string(), "b".to_string()];
        let results = ctx.fan_out_collect_all("batch:v1", items, |child, item| {
            let mine: String = child.step("work:v1", || Ok(format!("child-{item}")))?;
            let inner = child.fan_out_collect_all("sub:v1", vec!["x".to_string()], |gc, item| {
                gc.step("work:v1", || Ok(format!("gc-{item}")))
            })?;
            Ok(format!("{mine}+{}", inner[0].as_ref().unwrap()))
        })?;
        assert_eq!(results, vec![Ok("child-a+gc-x".to_string()), Ok("child-b+gc-x".to_string())]);
        Ok(())
    });
    engine.start();
    let (id, state) = engine.invoke(&parent).unwrap();
    let _ = state.unwrap_completed();
    let found = engine.world.rows.borrow().keys_under(&format!("nested-keys/{id}"));
    for key in ["work:v1", "batch:v1-0/work:v1", "batch:v1-0/sub:v1-0/work:v1"] {
        assert!(found.contains(&format!("nested-keys/{id}/{key}")), "{key} in {found:?}");
    }
    engine.sleep(2);
    engine.cleanup_expired(Duration::from_secs(1), &TextMap::new()).unwrap();
    assert!(engine.world.rows.borrow().keys_under(&format!("nested-keys/{id}")).is_empty());
}

// --- Rows that stay ---

#[test]
fn claim_of_one_step_blocks_the_others() {
    let mut engine = test_engine();
    engine.register(&wf(), |ctx| {
        let first = ctx.suspend(&SuspendPoint::<i32>::new("first:v1"));
        let second = ctx.suspend(&SuspendPoint::<i32>::new("second:v1"));
        first?;
        second.map(|_| ())
    });
    engine.start();
    let (id, _) = engine.invoke(&wf()).unwrap();
    let step = |key: &str| {
        let rows = engine.world.rows.borrow();
        rows.steps.get(&keys::composite_key("wf", &id, key)).cloned()
    };
    let meta = || engine.meta_row(&wf(), &id);
    let claim = |key: &str, step_row, meta_row| {
        execution::claim_suspended_step("wf", &id, key, vec![2], "i32", step_row, meta_row)
    };
    assert!(claim("second:v1", step("second:v1"), meta()).is_ok());
    let writes = claim("first:v1", step("first:v1"), meta()).unwrap();
    engine.world.rows.borrow_mut().commit(writes);
    assert_eq!(
        claim("second:v1", step("second:v1"), meta()),
        Err(EngineError::SignalSuperseded { key: "second:v1".into() })
    );
}

#[test]
fn completed_entries_are_never_replaced() {
    let mut engine = test_engine();
    let done: WorkflowDef<(), ()> = WorkflowDef::new("done");
    engine.register(&done, |ctx| ctx.step("s:v1", || Ok(7)).map(|_: i32| ()));
    engine.start();
    let (id, _) = engine.invoke(&done).unwrap();
    let row = engine.world.rows.borrow().steps.get(&format!("done/{id}/s:v1")).cloned();
    let mut ctx = Context::new("done".into(), id.clone(), None);

    let step = ctx.step("s:v1");
    assert!(matches!(
        step.run(&mut ctx, row.clone(), "i32", parse::<i32>),
        Ok(RunStart::Cached { result: 7, .. })
    ));
    assert!(matches!(
        step.run(&mut ctx, row.clone(), "u32", parse::<u32>),
        Err(EngineError::TypeMismatch { .. })
    ));
    let point: SuspendPoint<i32> = SuspendPoint::new("s:v1");
    let wait = ctx.suspend(&point);
    assert!(matches!(
        ctx.execute_suspend(&wait, row.clone(), "i32", parse::<i32>),
        Ok(SuspendOutcome::Resumed { result: 7, .. })
    ));
    assert!(matches!(ctx.timer("s:v1", row.clone()), Err(EngineError::TypeMismatch { .. })));
    assert_eq!(
        execution::claim_suspended_step("done", &id, "s:v1", vec![2], "i32", row, None),
        Err(EngineError::SignalRejected {
            key: "s:v1".into(),
            reason: "step is not suspended".into()
        })
    );
}

#[test]
fn second_cleanup_at_the_same_time_finds_nothing() {
    let mut engine = test_engine();
    let old = terminal_instances(&mut engine, 3);
    engine.seed(&wf(), "running", MetadataStatus::Running);
    engine.sleep(2);
    let (new, _) = engine.invoke(&wf()).unwrap();
    let ttl = Duration::from_secs(1);
    assert_eq!(engine.cleanup_expired(ttl, &TextMap::new()), Ok(3));
    for id in &old {
        assert!(engine.get_metadata(&wf(), id).is_none());
    }
    let left = || {
        let rows = engine.world.rows.borrow();
        (rows.steps.clone(), rows.meta.clone(), rows.timers.clone())
    };
    let first = left();
    assert_eq!(engine.cleanup_expired(ttl, &TextMap::new()), Ok(0));
    let rows = engine.world.rows.borrow();
    assert_eq!((rows.steps.clone(), rows.meta.clone(), rows.timers.clone()), first);
    drop(rows);
    assert!(engine.get_metadata(&wf(), &new).is_some());
    assert!(engine.get_metadata(&wf(), "running").is_some());
}

#[test]
fn failed_deletions_are_left_for_the_next_cleanup() {
    let mut engine = test_engine();
    let ids = terminal_instances(&mut engine, 2);
    let expired = || {
        let rows = engine.world.rows.borrow();
        let rows = rows.meta.iter().map(|(k, v)| (k.clone(), v.clone())).collect();
        let list = retention::collect_expired_metadata(
            rows,
            5000,
            Duration::from_secs(1),
            &TextMap::new(),
        );
        list.unwrap()
    };
    let first = expired();
    assert_eq!(first.len(), 2);
    let (name, gone) = first[0].clone();
    let steps = engine.world.rows.borrow().keys_under(&keys::metadata_key(&name, &gone));
    let writes = retention::delete_instance_data(&name, &gone, steps, vec![]);
    engine.world.rows.borrow_mut().commit(writes);
    let outcomes = vec![Ok(()), Err(EngineError::Storage("busy".into()))];
    assert_eq!(retention::count_cleaned(&outcomes), 1);
    assert_eq!(expired(), first[1..].to_vec());
    let kept = &first[1].1;
    assert!(ids.contains(kept) && engine.get_metadata(&wf(), kept).is_some());
}

#[test]
fn expired_instances_stay_expired() {
    let mut engine = test_engine();
    terminal_instances(&mut engine, 1);
    let rows = || -> Vec<(String, Vec<u8>)> {
        let rows = engine.world.rows.borrow();
        rows.meta.iter().map(|(k, v)| (k.clone(), v.clone())).collect()
    };
    let expired = |now: u64| {
        let none = TextMap::new();
        let list =
            retention::collect_expired_metadata(rows(), now, Duration::from_secs(5), &none);
        list.unwrap().len()
    };
    assert_eq!(expired(0), 0);
    assert_eq!(expired(1004), 0);
    for now in [1005, 1006, 2000, u64::MAX] {
        assert_eq!(expired(now), 1);
    }
}
