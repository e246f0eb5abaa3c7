use std::sync::Mutex;
use step_machine::{
    concluded, settled, Checkpoint, Engine, Error, Failure, Measure, Settled, State, Step,
    StepResult, Store, Text, Writes,
};

// The world outside the machine. A step reaches its world by a number that
// it carries, so that every test has a world of its own.

#[derive(Clone, Debug, Default)]
struct World {
    /// The number of steps of the job.
    steps: u32,
    /// The step that is broken, if one is, and the causes of its failure.
    broken: Option<(u32, Vec<String>)>,
    /// The steps whose transition was invoked, in order.
    log: Vec<u32>,
    /// The transitions and the writes of the store, as they came.
    events: Vec<String>,
}

static WORLDS: Mutex<Vec<World>> = Mutex::new(Vec::new());

fn world(steps: u32, broken: Option<(u32, Vec<String>)>) -> usize {
    let mut worlds = WORLDS.lock().unwrap();
    worlds.push(World { steps, broken, log: Vec::new(), events: Vec::new() });
    worlds.len() - 1
}

fn log(world: usize) -> Vec<u32> {
    WORLDS.lock().unwrap()[world].log.clone()
}

fn events(world: usize) -> Vec<String> {
    WORLDS.lock().unwrap()[world].events.clone()
}

fn note(world: usize, event: String) {
    WORLDS.lock().unwrap()[world].events.push(event);
}

fn repair(world: usize) {
    WORLDS.lock().unwrap()[world].broken = None;
}

/// A job of several steps, done one after the other.
#[derive(Clone, Debug, PartialEq)]
struct Job {
    world: usize,
    index: u32,
    /// Spent during the transition, so that a failed attempt leaves the
    /// value half used.
    fuel: u32,
}

impl Job {
    fn first(world: usize) -> Job {
        Job { world, index: 0, fuel: 3 }
    }

    fn at(world: usize, index: u32) -> Job {
        Job { world, index, fuel: 3 }
    }
}

impl Step for Job {
    fn admits(self, _: StepResult<Self>) -> bool {
        unreachable!()
    }

    fn remaining(self) -> Measure {
        unreachable!()
    }

    fn encoding(self) -> Option<Text> {
        unreachable!()
    }

    fn decoding(_: Text) -> Option<Self> {
        unreachable!()
    }

    fn rendering(self) -> Text {
        unreachable!()
    }

    fn run(mut self) -> StepResult<Job> {
        self.fuel = 0;
        let mut worlds = WORLDS.lock().unwrap();
        let world = &mut worlds[self.world];
        world.log.push(self.index);
        world.events.push(format!("run {}", self.index));
        if let Some((broken, causes)) = &world.broken {
            if *broken == self.index {
                return Err(Failure {
                    message: format!("step {} is broken", self.index),
                    causes: causes.clone(),
                });
            }
        }
        if self.index + 1 >= world.steps {
            Ok(None)
        } else {
            Ok(Some(Job { world: self.world, index: self.index + 1, fuel: 3 }))
        }
    }

    fn encode(&self) -> Result<String, Failure> {
        if self.index == 13 {
            return Err(Failure { message: String::from("step 13 cannot be written"), causes: Vec::new() });
        }
        Ok(format!("{} {} {}", self.world, self.index, self.fuel))
    }

    fn decode(text: &str) -> Result<Job, Failure> {
        let numbers: Vec<&str> = text.split(' ').collect();
        if numbers.len() != 3 || numbers[1] == "7" {
            return Err(Failure { message: format!("cannot read `{}`", text), causes: Vec::new() });
        }
        Ok(Job {
            world: numbers[0].parse().unwrap(),
            index: numbers[1].parse().unwrap(),
            fuel: numbers[2].parse().unwrap(),
        })
    }

    fn describe(&self) -> String {
        format!("Job({})", self.index)
    }
}

/// A store that keeps its record in memory, and that fails on demand.
#[derive(Debug, Default)]
struct Memory {
    record: Option<(Job, Option<String>)>,
    saves: usize,
    /// The writes that succeeded, in order.
    written: Vec<String>,
    /// The world of the steps that were saved.
    world: Option<usize>,
    fail_load: bool,
    fail_save: bool,
}

impl Memory {
    fn holding(step: Job, error: Option<&str>) -> Memory {
        Memory { record: Some((step, error.map(String::from))), ..Memory::default() }
    }
}

impl Store for Memory {
    type Step = Job;
    type Error = String;

    fn record(&self) -> Option<Checkpoint<Job>> {
        unreachable!()
    }

    fn writes(&self) -> Writes<Job> {
        unreachable!()
    }

    fn load(&self) -> Result<Option<State<Job>>, String> {
        if self.fail_load {
            return Err(String::from("cannot load"));
        }
        Ok(self.record.clone().map(|(step, error)| State::new(step, error)))
    }

    fn save(&mut self, state: &State<Job>) -> Result<(), String> {
        if self.fail_save {
            return Err(String::from("cannot save"));
        }
        self.saves += 1;
        let event = match state.error() {
            Some(text) => format!("save {}: {}", state.step().index, text),
            None => format!("save {}", state.step().index),
        };
        note(state.step().world, event.clone());
        self.world = Some(state.step().world);
        self.written.push(event);
        self.record = Some((state.step().clone(), state.error().cloned()));
        Ok(())
    }

    /// Removing a record that is not there is an error.
    fn clean(&mut self) -> Result<(), String> {
        match self.record.take() {
            Some(_) => {
                if let Some(world) = self.world {
                    note(world, String::from("clean"));
                }
                self.written.push(String::from("clean"));
                Ok(())
            }
            None => Err(String::from("nothing to remove")),
        }
    }
}

fn step_text(result: Result<(), Error<String>>) -> String {
    match result {
        Err(Error::Step(text)) => text,
        other => panic!("expected a step failure, got {:?}", other),
    }
}

#[test]
fn new_engine_stands_at_the_first_step_and_touches_no_store() {
    let w = world(3, None);
    let engine = Engine::new(Memory::default(), Job::first(w)).unwrap();
    assert_eq!(engine.state().step(), &Job::first(w));
    assert_eq!(engine.state().error(), None);
    assert_eq!(engine.store().record, None);
    assert_eq!(engine.store().saves, 0);
}

#[test]
fn run_to_completion_removes_the_record() {
    let w = world(3, None);
    let (mut store, state) = Engine::new(Memory::default(), Job::first(w)).unwrap().into_parts();
    let result = Engine::execute(&mut store, state);
    assert!(matches!(result, Ok(())));
    assert_eq!(log(w), vec![0, 1, 2]);
    assert_eq!(store.record, None);
    assert!(store.load().unwrap().is_none());
    // One durable write after each transition that gave a successor.
    assert_eq!(store.saves, 2);
}

#[test]
fn failing_transition_leaves_the_step_before_it_with_the_failure() {
    let w = world(4, Some((2, Vec::new())));
    let (mut store, state) = Engine::new(Memory::default(), Job::first(w)).unwrap().into_parts();
    let result = Engine::execute(&mut store, state);
    assert_eq!(step_text(result), "step 2 is broken");
    assert_eq!(log(w), vec![0, 1, 2]);
    // The step is as it was before the attempt: its fuel is not spent.
    assert_eq!(store.record, Some((Job::at(w, 2), Some(String::from("step 2 is broken")))));
    let loaded = store.load().unwrap().unwrap();
    assert_eq!(loaded.step(), &Job::at(w, 2));
    assert_eq!(loaded.error(), Some(&String::from("step 2 is broken")));
    // Two successors and the failure: three durable writes.
    assert_eq!(store.saves, 3);
}

#[test]
fn failure_is_reported_with_its_chain_of_causes() {
    let causes = vec![String::from("the directory is missing"), String::from("os error 2")];
    let w = world(2, Some((0, causes)));
    let (mut store, state) = Engine::new(Memory::default(), Job::first(w)).unwrap().into_parts();
    let text = step_text(Engine::execute(&mut store, state));
    assert_eq!(text, "step 0 is broken\nCaused by:\n\tthe directory is missing\n\tos error 2");
    assert_eq!(store.record, Some((Job::first(w), Some(text))));
}

#[test]
fn pending_failure_blocks_the_run_and_invokes_no_transition() {
    let w = world(4, None);
    let store = Memory::holding(Job::at(w, 2), Some("step 2 is broken"));
    let engine = Engine::new(store, Job::first(w)).unwrap().restore().unwrap();
    let (mut store, state) = engine.into_parts();
    let result = Engine::execute(&mut store, state);
    assert_eq!(
        step_text(result),
        "Previous run resulted in an error: step 2 is broken on step: Job(2)"
    );
    assert_eq!(log(w), Vec::<u32>::new());
    assert_eq!(store.saves, 0);
    assert_eq!(store.record, Some((Job::at(w, 2), Some(String::from("step 2 is broken")))));
}

#[test]
fn run_of_a_consumed_engine_reports_the_pending_failure() {
    let w = world(4, None);
    let store = Memory::holding(Job::at(w, 1), Some("step 1 is broken"));
    let (result, store) = Engine::new(store, Job::first(w)).unwrap().restore().unwrap().run();
    assert_eq!(
        step_text(result),
        "Previous run resulted in an error: step 1 is broken on step: Job(1)"
    );
    assert_eq!(log(w), Vec::<u32>::new());
    assert_eq!(store.record, Some((Job::at(w, 1), Some(String::from("step 1 is broken")))));
    assert_eq!(store.written, Vec::<String>::new());
}

#[test]
fn run_hands_the_store_back_without_a_record_after_success() {
    let w = world(3, None);
    let (result, store) = Engine::new(Memory::default(), Job::first(w)).unwrap().run();
    assert!(matches!(result, Ok(())));
    assert_eq!(store.record, None);
    assert!(store.load().unwrap().is_none());
    assert_eq!(store.written, vec!["save 1", "save 2", "clean"]);
}

#[test]
fn run_hands_the_store_back_with_the_failed_step_and_the_failure_text() {
    let w = world(4, Some((2, vec![String::from("no such directory")])));
    let (result, store) = Engine::new(Memory::default(), Job::first(w)).unwrap().run();
    let text = step_text(result);
    assert_eq!(text, "step 2 is broken\nCaused by:\n\tno such directory");
    assert_eq!(store.record, Some((Job::at(w, 2), Some(text.clone()))));
    assert_eq!(store.written, vec![String::from("save 1"), String::from("save 2"), format!("save 2: {}", text)]);
    assert_eq!(log(w), vec![0, 1, 2]);
}

#[test]
fn each_successor_is_written_before_its_transition_is_made() {
    let w = world(3, None);
    let (result, store) = Engine::new(Memory::default(), Job::first(w)).unwrap().run();
    assert!(matches!(result, Ok(())));
    assert_eq!(events(w), vec!["run 0", "save 1", "run 1", "save 2", "run 2", "clean"]);
    assert_eq!(store.written, vec!["save 1", "save 2", "clean"]);
}

#[test]
fn failed_step_is_written_once_and_nothing_follows() {
    let w = world(4, Some((1, Vec::new())));
    let (result, store) = Engine::new(Memory::default(), Job::first(w)).unwrap().run();
    assert_eq!(step_text(result), "step 1 is broken");
    assert_eq!(events(w), vec!["run 0", "save 1", "run 1", "save 1: step 1 is broken"]);
    assert_eq!(store.written, vec!["save 1", "save 1: step 1 is broken"]);
}

#[test]
fn failing_store_call_ends_the_run_and_nothing_follows() {
    let w = world(5, None);
    let store = Memory { fail_save: true, ..Memory::default() };
    let (result, store) = Engine::new(store, Job::first(w)).unwrap().run();
    match result {
        Err(Error::Store(e)) => assert_eq!(e, "cannot save"),
        other => panic!("unexpected result: {:?}", other),
    }
    assert_eq!(events(w), vec!["run 0"]);
    assert_eq!(store.written, Vec::<String>::new());
}

#[test]
fn acknowledgement_is_one_write_of_the_cleared_checkpoint() {
    let w = world(3, None);
    let store = Memory::holding(Job::at(w, 1), Some("step 1 is broken"));
    let engine = Engine::new(store, Job::first(w)).unwrap().restore().unwrap().drop_error().unwrap();
    assert_eq!(engine.store().written, vec!["save 1"]);
}

#[test]
fn acknowledged_failure_is_attempted_again_at_the_failed_step() {
    let w = world(4, Some((2, Vec::new())));
    let (mut store, state) = Engine::new(Memory::default(), Job::first(w)).unwrap().into_parts();
    assert_eq!(step_text(Engine::execute(&mut store, state)), "step 2 is broken");
    assert_eq!(log(w), vec![0, 1, 2]);

    repair(w);
    let engine = Engine::new(store, Job::first(w)).unwrap().restore().unwrap().drop_error().unwrap();
    assert_eq!(engine.store().record, Some((Job::at(w, 2), None)));
    let (mut store, state) = engine.into_parts();
    assert!(matches!(Engine::execute(&mut store, state), Ok(())));
    // Step 2 again, then step 3: nothing skipped, nothing begun anew.
    assert_eq!(log(w), vec![0, 1, 2, 2, 3]);
    assert_eq!(store.record, None);
}

#[test]
fn acknowledged_failure_that_persists_fails_again_at_the_same_step() {
    let w = world(4, Some((1, Vec::new())));
    let (mut store, state) = Engine::new(Memory::default(), Job::first(w)).unwrap().into_parts();
    assert_eq!(step_text(Engine::execute(&mut store, state)), "step 1 is broken");
    let engine = Engine::new(store, Job::first(w)).unwrap().restore().unwrap().drop_error().unwrap();
    let (mut store, state) = engine.into_parts();
    assert_eq!(step_text(Engine::execute(&mut store, state)), "step 1 is broken");
    assert_eq!(log(w), vec![0, 1, 1]);
    assert_eq!(store.record, Some((Job::at(w, 1), Some(String::from("step 1 is broken")))));
}

#[test]
fn restore_without_a_record_keeps_the_initial_state() {
    let w = world(3, None);
    let engine = Engine::new(Memory::default(), Job::at(w, 1)).unwrap().restore().unwrap();
    assert_eq!(engine.state().step(), &Job::at(w, 1));
    assert_eq!(engine.state().error(), None);
    assert_eq!(engine.store().record, None);
    // Restoring once more changes nothing.
    let engine = engine.restore().unwrap();
    assert_eq!(engine.state().step(), &Job::at(w, 1));
    assert_eq!(engine.state().error(), None);
}

#[test]
fn restore_replaces_the_step_and_the_pending_failure() {
    let w = world(5, None);
    let store = Memory::holding(Job::at(w, 3), Some("step 3 is broken"));
    let engine = Engine::new(store, Job::first(w)).unwrap().restore().unwrap();
    assert_eq!(engine.state().step(), &Job::at(w, 3));
    assert_eq!(engine.state().error(), Some(&String::from("step 3 is broken")));

    let store = Memory::holding(Job::at(w, 4), None);
    let engine = Engine::new(store, Job::first(w)).unwrap().restore().unwrap();
    assert_eq!(engine.state().step(), &Job::at(w, 4));
    assert_eq!(engine.state().error(), None);
}

#[test]
fn restore_reports_a_store_that_cannot_be_read() {
    let w = world(3, None);
    let store = Memory { fail_load: true, ..Memory::default() };
    match Engine::new(store, Job::first(w)).unwrap().restore() {
        Err(Error::Store(e)) => assert_eq!(e, "cannot load"),
        other => panic!("unexpected result: {:?}", other.map(|_| ())),
    }
}

#[test]
fn drop_error_clears_the_failure_and_writes_the_checkpoint() {
    let w = world(3, None);
    let store = Memory::holding(Job::at(w, 1), Some("step 1 is broken"));
    let engine = Engine::new(store, Job::first(w)).unwrap().restore().unwrap().drop_error().unwrap();
    assert_eq!(engine.state().step(), &Job::at(w, 1));
    assert_eq!(engine.state().error(), None);
    assert_eq!(engine.store().record, Some((Job::at(w, 1), None)));
    assert_eq!(engine.store().saves, 1);
}

#[test]
fn drop_error_without_a_failure_writes_the_checkpoint_all_the_same() {
    let w = world(3, None);
    let engine = Engine::new(Memory::default(), Job::first(w)).unwrap().drop_error().unwrap();
    assert_eq!(engine.state().error(), None);
    assert_eq!(engine.store().record, Some((Job::first(w), None)));
}

#[test]
fn drop_error_reports_a_store_that_cannot_be_written() {
    let w = world(3, None);
    let store = Memory { fail_save: true, ..Memory::default() };
    match Engine::new(store, Job::first(w)).unwrap().drop_error() {
        Err(Error::Store(e)) => assert_eq!(e, "cannot save"),
        other => panic!("unexpected result: {:?}", other.map(|_| ())),
    }
}

#[test]
fn save_writes_the_checkpoint_in_memory() {
    let w = world(3, None);
    let mut engine = Engine::new(Memory::default(), Job::at(w, 2)).unwrap();
    engine.save().unwrap();
    assert_eq!(engine.store().record, Some((Job::at(w, 2), None)));
    assert_eq!(engine.state().step(), &Job::at(w, 2));
}

#[test]
fn run_stops_at_once_when_the_store_cannot_be_written() {
    let w = world(3, None);
    let mut store = Memory { fail_save: true, ..Memory::default() };
    let result = Engine::execute(&mut store, State::new(Job::first(w), None));
    match result {
        Err(Error::Store(e)) => assert_eq!(e, "cannot save"),
        other => panic!("unexpected result: {:?}", other),
    }
    assert_eq!(log(w), vec![0]);
}

#[test]
fn store_failure_after_a_step_failure_is_the_one_reported() {
    let w = world(3, Some((0, Vec::new())));
    let mut store = Memory { fail_save: true, ..Memory::default() };
    let result = Engine::execute(&mut store, State::new(Job::first(w), None));
    assert!(matches!(result, Err(Error::Store(_))));
    assert_eq!(store.record, None);
}

#[test]
fn completion_with_nothing_to_remove_is_a_store_error_of_this_store() {
    let w = world(1, None);
    let mut store = Memory::default();
    let result = Engine::execute(&mut store, State::new(Job::first(w), None));
    match result {
        Err(Error::Store(e)) => assert_eq!(e, "nothing to remove"),
        other => panic!("unexpected result: {:?}", other),
    }
    assert_eq!(log(w), vec![0]);
}

#[test]
fn step_that_cannot_be_encoded_is_not_attempted() {
    let w = world(20, None);
    let mut store = Memory::default();
    let result = Engine::execute(&mut store, State::new(Job::at(w, 12), None));
    match result {
        Err(Error::Serde(e)) => assert_eq!(e.message, "step 13 cannot be written"),
        other => panic!("unexpected result: {:?}", other),
    }
    assert_eq!(log(w), vec![12]);
    // The store is as the last successful transition left it.
    assert_eq!(store.record, Some((Job::at(w, 13), None)));
}

#[test]
fn snapshot_that_cannot_be_decoded_is_a_codec_error() {
    let w = world(20, Some((7, Vec::new())));
    let mut store = Memory::default();
    let result = Engine::execute(&mut store, State::new(Job::at(w, 6), None));
    match result {
        Err(Error::Serde(e)) => assert_eq!(e.message, format!("cannot read `{} 7 3`", w)),
        other => panic!("unexpected result: {:?}", other),
    }
    assert_eq!(log(w), vec![6, 7]);
    assert_eq!(store.record, Some((Job::at(w, 7), None)));
}

#[test]
fn state_keeps_what_it_was_made_with() {
    let w = world(1, None);
    let state = State::new(Job::at(w, 5), Some(String::from("broken")));
    assert_eq!(state.step(), &Job::at(w, 5));
    assert_eq!(state.error(), Some(&String::from("broken")));
    assert_eq!(state.into_step(), Job::at(w, 5));
}

#[test]
fn outcome_of_a_store_call_is_handed_on_with_its_own_error() {
    assert!(matches!(Error::<String>::of_store(Ok(7)), Ok(7)));
    assert!(matches!(Error::of_store::<u8>(Err(String::from("full"))), Err(Error::Store(e)) if e == "full"));
}

#[test]
fn store_error_is_wrapped_as_such() {
    assert!(matches!(Error::store(String::from("full")), Error::Store(e) if e == "full"));
}

// What an outcome comes to, and what is handed on once the store was asked.

fn broken(message: &str, causes: &[&str]) -> Failure {
    Failure {
        message: String::from(message),
        causes: causes.iter().map(|cause| String::from(*cause)).collect(),
    }
}

#[test]
fn successor_settles_as_the_next_checkpoint() {
    let w = world(3, None);
    match settled::<Job>("0 0 3", Ok(Some(Job::at(w, 1)))) {
        Ok(Settled::Next(state)) => {
            assert_eq!(state.step(), &Job::at(w, 1));
            assert_eq!(state.error(), None);
        }
        other => panic!("unexpected result: {:?}", other),
    }
}

#[test]
fn completion_settles_as_done() {
    assert!(matches!(settled::<Job>("0 0 3", Ok(None)), Ok(Settled::Done)));
}

#[test]
fn success_does_not_read_the_snapshot() {
    let w = world(3, None);
    assert!(matches!(settled::<Job>("no snapshot", Ok(None)), Ok(Settled::Done)));
    assert!(matches!(settled::<Job>("no snapshot", Ok(Some(Job::at(w, 1)))), Ok(Settled::Next(_))));
}

#[test]
fn failure_settles_as_the_step_of_the_snapshot_with_the_chain_text() {
    let outcome = Err(broken("step 4 is broken", &["no such directory", "os error 2"]));
    match settled::<Job>("9 4 3", outcome) {
        Ok(Settled::Failed(state, text)) => {
            assert_eq!(text, "step 4 is broken\nCaused by:\n\tno such directory\n\tos error 2");
            assert_eq!(state.step(), &Job { world: 9, index: 4, fuel: 3 });
            assert_eq!(state.error(), Some(&text));
        }
        other => panic!("unexpected result: {:?}", other),
    }
}

#[test]
fn failure_with_a_snapshot_that_cannot_be_read_settles_as_that_failure() {
    match settled::<Job>("9 7 3", Err(broken("step 7 is broken", &[]))) {
        Err(e) => assert_eq!(e.message, "cannot read `9 7 3`"),
        other => panic!("unexpected result: {:?}", other),
    }
}

#[test]
fn saved_successor_is_handed_on() {
    let w = world(3, None);
    let verdict = Settled::Next(State::new(Job::at(w, 1), None));
    match concluded::<Job, String>(verdict, Ok(())) {
        Ok(Some(state)) => {
            assert_eq!(state.step(), &Job::at(w, 1));
            assert_eq!(state.error(), None);
        }
        other => panic!("unexpected result: {:?}", other),
    }
}

#[test]
fn removed_record_ends_in_success() {
    assert!(matches!(concluded::<Job, String>(Settled::Done, Ok(())), Ok(None)));
}

#[test]
fn saved_failure_is_reported_as_a_step_failure() {
    let w = world(3, None);
    let text = String::from("step 1 is broken");
    let verdict = Settled::Failed(State::new(Job::at(w, 1), Some(text.clone())), text);
    match concluded::<Job, String>(verdict, Ok(())) {
        Err(Error::Step(reported)) => assert_eq!(reported, "step 1 is broken"),
        other => panic!("unexpected result: {:?}", other),
    }
}

#[test]
fn store_error_is_handed_on_whatever_the_outcome_was() {
    let w = world(3, None);
    let text = String::from("step 1 is broken");
    let verdicts = [
        Settled::Next(State::new(Job::at(w, 1), None)),
        Settled::Done,
        Settled::Failed(State::new(Job::at(w, 1), Some(text.clone())), text),
    ];
    for verdict in verdicts {
        match concluded::<Job, String>(verdict, Err(String::from("disk full"))) {
            Err(Error::Store(e)) => assert_eq!(e, "disk full"),
            other => panic!("unexpected result: {:?}", other),
        }
    }
}

// The two tosses. The second toss fails when it differs from the first.

#[derive(Clone, Copy, Debug, PartialEq)]
enum Coin {
    Heads,
    Tails,
}

static TOSSES: Mutex<Vec<Coin>> = Mutex::new(Vec::new());

fn script(tosses: &[Coin]) {
    let mut world = TOSSES.lock().unwrap();
    world.clear();
    world.extend(tosses.iter().rev().copied());
}

fn tosses_left() -> usize {
    TOSSES.lock().unwrap().len()
}

fn toss() -> Coin {
    TOSSES.lock().unwrap().pop().expect("the script has run out of tosses")
}

#[derive(Clone, Debug, PartialEq)]
enum Toss {
    FirstToss,
    SecondToss { first_coin: Coin },
}

impl Step for Toss {
    fn admits(self, _: StepResult<Self>) -> bool {
        unreachable!()
    }

    fn remaining(self) -> Measure {
        unreachable!()
    }

    fn encoding(self) -> Option<Text> {
        unreachable!()
    }

    fn decoding(_: Text) -> Option<Self> {
        unreachable!()
    }

    fn rendering(self) -> Text {
        unreachable!()
    }

    fn run(self) -> StepResult<Toss> {
        match self {
            Toss::FirstToss => Ok(Some(Toss::SecondToss { first_coin: toss() })),
            Toss::SecondToss { first_coin } => {
                if toss() == first_coin {
                    Ok(None)
                } else {
                    Err(Failure { message: String::from("Coins landed differently"), causes: Vec::new() })
                }
            }
        }
    }

    fn encode(&self) -> Result<String, Failure> {
        Ok(String::from(match self {
            Toss::FirstToss => "first",
            Toss::SecondToss { first_coin: Coin::Heads } => "second heads",
            Toss::SecondToss { first_coin: Coin::Tails } => "second tails",
        }))
    }

    fn decode(text: &str) -> Result<Toss, Failure> {
        match text {
            "first" => Ok(Toss::FirstToss),
            "second heads" => Ok(Toss::SecondToss { first_coin: Coin::Heads }),
            "second tails" => Ok(Toss::SecondToss { first_coin: Coin::Tails }),
            _ => Err(Failure { message: format!("no step is written `{}`", text), causes: Vec::new() }),
        }
    }

    fn describe(&self) -> String {
        format!("{:?}", self)
    }
}

#[derive(Debug, Default)]
struct Purse {
    record: Option<(Toss, Option<String>)>,
}

impl Store for Purse {
    type Step = Toss;
    type Error = String;

    fn record(&self) -> Option<Checkpoint<Toss>> {
        unreachable!()
    }

    fn writes(&self) -> Writes<Toss> {
        unreachable!()
    }

    fn load(&self) -> Result<Option<State<Toss>>, String> {
        Ok(self.record.clone().map(|(step, error)| State::new(step, error)))
    }

    fn save(&mut self, state: &State<Toss>) -> Result<(), String> {
        self.record = Some((state.step().clone(), state.error().cloned()));
        Ok(())
    }

    fn clean(&mut self) -> Result<(), String> {
        match self.record.take() {
            Some(_) => Ok(()),
            None => Err(String::from("nothing to remove")),
        }
    }
}

#[test]
fn snapshot_of_every_step_reads_back_as_the_same_step() {
    let steps = [
        Toss::FirstToss,
        Toss::SecondToss { first_coin: Coin::Heads },
        Toss::SecondToss { first_coin: Coin::Tails },
    ];
    for step in steps {
        let copy = Toss::decode(&step.encode().unwrap()).unwrap();
        assert_eq!(copy, step);
        assert_eq!(copy.describe(), step.describe());
    }
    // A copy behaves as the step does: with the same toss it ends alike.
    script(&[Coin::Tails, Coin::Tails]);
    let step = Toss::SecondToss { first_coin: Coin::Tails };
    let copy = Toss::decode(&step.encode().unwrap()).unwrap();
    assert!(matches!(step.run(), Ok(None)));
    assert!(matches!(copy.run(), Ok(None)));
}

fn launch(store: Purse, acknowledge: bool) -> (Result<(), Error<String>>, Purse) {
    let engine = Engine::new(store, Toss::FirstToss).unwrap().restore().unwrap();
    let engine = if acknowledge { engine.drop_error().unwrap() } else { engine };
    engine.run()
}

#[test]
fn two_tosses_fail_then_resume_at_the_second() {
    let failed = Some((
        Toss::SecondToss { first_coin: Coin::Heads },
        Some(String::from("Coins landed differently")),
    ));

    // Run 1: heads, then tails.
    script(&[Coin::Heads, Coin::Tails]);
    let (result, store) = launch(Purse::default(), false);
    assert_eq!(step_text(result), "Coins landed differently");
    assert_eq!(store.record, failed);

    // Run 2, without acknowledgement: fails at once, and no coin is tossed.
    script(&[Coin::Heads]);
    let (result, store) = launch(store, false);
    assert_eq!(
        step_text(result),
        "Previous run resulted in an error: Coins landed differently on step: SecondToss { first_coin: Heads }"
    );
    assert_eq!(tosses_left(), 1);
    assert_eq!(store.record, failed);

    // Run 3, after the acknowledgement: the second coin is tossed again.
    let (result, store) = launch(store, true);
    assert!(matches!(result, Ok(())));
    assert_eq!(tosses_left(), 0);
    assert_eq!(store.record, None);
}
