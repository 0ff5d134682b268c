//! The registrar: the decisions of a registration, one step at a time.
//!
//! The registrar never touches the store. It hands out one request at a time,
//! a write or a probe, and is told how the request went. Whoever owns the
//! store carries the request out and comes back with the answer. The first
//! request that fails, or an answer that does not fit the request, ends the
//! registration: what was written stays, and nothing more is asked for.

use vstd::prelude::*;
use crate::registry::{registration_records, registration_schema, Policy, Record, RecordModel, Value, ValueModel};
use crate::store::{registered, written, Store};

verus! {

/// What the registrar is waiting for.
#[derive(Clone, Copy, PartialEq, Eq, Debug, Structural)]
pub enum Phase {
    /// Nothing has been asked for yet.
    Ready,
    /// A write is under way.
    Writing,
    /// A probe is under way.
    Probing,
    /// Every record has been dealt with.
    Finished,
    /// The registration was given up.
    Aborted,
}

/// What the store's owner reports back.
#[derive(Clone, Copy, PartialEq, Eq, Debug, Structural)]
pub enum Event {
    /// The registration begins.
    Start,
    /// The write asked for has been done.
    Written,
    /// The entry probed holds a value.
    Found,
    /// The entry probed is absent.
    Missing,
    /// The request could not be carried out.
    Failed,
}

/// What the registrar asks the store's owner to do next.
#[derive(Debug, PartialEq, Eq)]
pub enum Action {
    /// Set the value called `name` under `key`, creating the key if need be.
    Write { key: String, name: String, value: Value },
    /// Report whether a value called `name` exists under `key`.
    Probe { key: String, name: String },
    /// Stop: the registration is complete.
    Finish,
    /// Stop: the registration failed, and the failure goes to the caller.
    Abort,
}

/// The mathematical content of an [`Action`].
pub enum ActionModel {
    Write { key: Seq<char>, name: Seq<char>, value: ValueModel },
    Probe { key: Seq<char>, name: Seq<char> },
    Finish,
    Abort,
}

impl View for Action {
    type V = ActionModel;

    open spec fn view(&self) -> ActionModel {
        match self {
            Action::Write { key, name, value } => ActionModel::Write { key: key@, name: name@, value: value@ },
            Action::Probe { key, name } => ActionModel::Probe { key: key@, name: name@ },
            Action::Finish => ActionModel::Finish,
            Action::Abort => ActionModel::Abort,
        }
    }
}

impl ActionModel {
    /// The action ends the registration.
    pub open spec fn is_final(self) -> bool {
        self is Finish || self is Abort
    }
}

/// The write that carries out `record`.
pub open spec fn write_of(record: RecordModel) -> ActionModel {
    ActionModel::Write { key: record.key, name: record.name, value: record.value }
}

/// The probe that precedes a record which keeps what exists.
pub open spec fn probe_of(record: RecordModel) -> ActionModel {
    ActionModel::Probe { key: record.key, name: record.name }
}

/// The mathematical content of a [`Registrar`]: the records, how many of them
/// have been dealt with, and what is awaited.
pub struct RegistrarModel {
    pub records: Seq<RecordModel>,
    pub cursor: int,
    pub phase: Phase,
}

impl RegistrarModel {
    /// The states that a registrar can be in.
    pub open spec fn wf(self) -> bool {
        &&& 0 <= self.cursor <= self.records.len()
        &&& self.phase == Phase::Ready ==> self.cursor == 0
        &&& self.phase == Phase::Writing ==> self.cursor < self.records.len()
        &&& self.phase == Phase::Probing ==> self.cursor < self.records.len() && self.records[self.cursor].policy
            == Policy::KeepExisting
        &&& self.phase == Phase::Finished ==> self.cursor == self.records.len()
    }

    /// The registrar before anything was asked for.
    pub open spec fn fresh(records: Seq<RecordModel>) -> RegistrarModel {
        RegistrarModel { records, cursor: 0, phase: Phase::Ready }
    }

    /// Turning to record `index`: a record that overwrites is written at once,
    /// one that keeps what exists is probed first, and past the last record
    /// the registration is complete.
    pub open spec fn turn_to(self, index: int) -> (RegistrarModel, ActionModel) {
        if index >= self.records.len() {
            (RegistrarModel { cursor: self.records.len() as int, phase: Phase::Finished, ..self }, ActionModel::Finish)
        } else if self.records[index].policy == Policy::KeepExisting {
            (RegistrarModel { cursor: index, phase: Phase::Probing, ..self }, probe_of(self.records[index]))
        } else {
            (RegistrarModel { cursor: index, phase: Phase::Writing, ..self }, write_of(self.records[index]))
        }
    }

    /// Giving up: the cursor stays on the record that was not carried out.
    pub open spec fn give_up(self) -> (RegistrarModel, ActionModel) {
        (RegistrarModel { phase: Phase::Aborted, ..self }, ActionModel::Abort)
    }

    /// The next state and the next action, for every state and every event.
    pub open spec fn step(self, event: Event) -> (RegistrarModel, ActionModel) {
        match self.phase {
            Phase::Finished => (self, ActionModel::Finish),
            Phase::Aborted => (self, ActionModel::Abort),
            Phase::Ready => if event == Event::Start {
                self.turn_to(0)
            } else {
                self.give_up()
            },
            Phase::Writing => if event == Event::Written {
                self.turn_to(self.cursor + 1)
            } else {
                self.give_up()
            },
            Phase::Probing => if event == Event::Found {
                self.turn_to(self.cursor + 1)
            } else if event == Event::Missing {
                (RegistrarModel { phase: Phase::Writing, ..self }, write_of(self.records[self.cursor]))
            } else {
                self.give_up()
            },
        }
    }
}

/// The state of one registration.
#[derive(Debug)]
pub struct Registrar {
    records: Vec<Record>,
    cursor: usize,
    phase: Phase,
}

impl View for Registrar {
    type V = RegistrarModel;

    closed spec fn view(&self) -> RegistrarModel {
        RegistrarModel { records: self.records.deep_view(), cursor: self.cursor as int, phase: self.phase }
    }
}

impl Registrar {
    #[verifier::type_invariant]
    spec fn well_formed(self) -> bool {
        self@.wf()
    }

    /// A registrar for the executable at `exe_path`, whose file name is `exe_name`.
    pub fn new(exe_path: &str, exe_name: &str) -> (registrar: Registrar)
        ensures
            registrar@ == RegistrarModel::fresh(registration_schema(exe_path@, exe_name@)),
    {
        Registrar::for_records(registration_records(exe_path, exe_name))
    }

    /// A registrar for any list of records.
    pub fn for_records(records: Vec<Record>) -> (registrar: Registrar)
        ensures
            registrar@ == RegistrarModel::fresh(records.deep_view()),
    {
        Registrar { records, cursor: 0, phase: Phase::Ready }
    }

    /// What the registrar is waiting for.
    pub fn phase(&self) -> (phase: Phase)
        ensures
            phase == self@.phase,
    {
        self.phase
    }

    /// How many records have been dealt with.
    pub fn completed(&self) -> (count: usize)
        ensures
            count == self@.cursor,
            self@.wf(),
    {
        proof {
            use_type_invariant(self);
        }
        self.cursor
    }

    /// Takes the answer to the last request and gives the next one.
    ///
    /// `Start` opens the registration. While a write is awaited only `Written`
    /// goes on to the next record; while a probe is awaited `Found` skips the
    /// record and `Missing` has it written. Any other answer gives the
    /// registration up. Once finished or given up, the registrar repeats its
    /// last word whatever it is told.
    pub fn step(self, event: Event) -> (next: (Registrar, Action))
        ensures
            (next.0@, next.1@) == self@.step(event),
    {
        proof {
            use_type_invariant(&self);
            assert(self@.records.len() == self.records.len());
        }
        match self.phase {
            Phase::Finished => (self, Action::Finish),
            Phase::Aborted => (self, Action::Abort),
            Phase::Ready => match event {
                Event::Start => self.turn_to(0),
                _ => self.give_up(),
            },
            Phase::Writing => match event {
                Event::Written => {
                    let index = self.cursor + 1;
                    self.turn_to(index)
                },
                _ => self.give_up(),
            },
            Phase::Probing => match event {
                Event::Found => {
                    let index = self.cursor + 1;
                    self.turn_to(index)
                },
                Event::Missing => {
                    let action = write_action(&self.records[self.cursor]);
                    (Registrar { records: self.records, cursor: self.cursor, phase: Phase::Writing }, action)
                },
                _ => self.give_up(),
            },
        }
    }

    fn turn_to(self, index: usize) -> (next: (Registrar, Action))
        requires
            index <= self@.records.len(),
        ensures
            (next.0@, next.1@) == self@.turn_to(index as int),
    {
        if index >= self.records.len() {
            let cursor = self.records.len();
            (Registrar { records: self.records, cursor, phase: Phase::Finished }, Action::Finish)
        } else {
            let record = &self.records[index];
            match record.policy {
                Policy::KeepExisting => {
                    let action = Action::Probe { key: record.key.clone(), name: record.name.clone() };
                    (Registrar { records: self.records, cursor: index, phase: Phase::Probing }, action)
                },
                Policy::Overwrite => {
                    let action = write_action(record);
                    (Registrar { records: self.records, cursor: index, phase: Phase::Writing }, action)
                },
            }
        }
    }

    fn give_up(self) -> (next: (Registrar, Action))
        ensures
            (next.0@, next.1@) == self@.give_up(),
    {
        proof {
            use_type_invariant(&self);
        }
        (Registrar { records: self.records, cursor: self.cursor, phase: Phase::Aborted }, Action::Abort)
    }
}

/// The write that carries out `record`.
fn write_action(record: &Record) -> (action: Action)
    ensures
        action@ == write_of(record@),
{
    Action::Write { key: record.key.clone(), name: record.name.clone(), value: record.value.clone() }
}

/// What a store answers to a request, and what it holds afterwards. A store in
/// good health carries out every write and answers every probe truthfully; one
/// that is not fails the request and stays as it was.
pub open spec fn answer(store: Store, action: ActionModel, healthy: bool) -> (Store, Event) {
    if !healthy {
        (store, Event::Failed)
    } else {
        match action {
            ActionModel::Write { key, name, value } => (store.insert((key, name), value), Event::Written),
            ActionModel::Probe { key, name } => (
                store,
                if store.contains_key((key, name)) {
                    Event::Found
                } else {
                    Event::Missing
                },
            ),
            _ => (store, Event::Failed),
        }
    }
}

/// A whole registration against a store that carries out the first `patience`
/// requests and fails the one after: the registrar's last state, its last
/// action, and the store at the end. `limit` bounds the number of requests.
pub open spec fn run(machine: RegistrarModel, event: Event, store: Store, patience: nat, limit: nat) -> (
    RegistrarModel,
    ActionModel,
    Store,
)
    decreases limit,
{
    let (next, action) = machine.step(event);
    if limit == 0 || action.is_final() {
        (next, action, store)
    } else {
        let (after, reply) = answer(store, action, patience > 0);
        run(next, reply, after, if patience > 0 { (patience - 1) as nat } else { 0 }, (limit - 1) as nat)
    }
}

/// Carrying out a stretch of records begins with carrying out its first.
proof fn lemma_first_record_counts(store: Store, records: Seq<RecordModel>, from: int, to: int)
    requires
        0 <= from < to <= records.len(),
    ensures
        registered(store, records.subrange(from, to)) == registered(
            written(store, records[from]),
            records.subrange(from + 1, to),
        ),
{
    assert(records.subrange(from, to)[0] == records[from]);
    assert(records.subrange(from, to).drop_first() =~= records.subrange(from + 1, to));
}

/// The run from the moment the registrar turns to record `index`: it carries
/// out the records from `index` up to the cursor it ends on, and nothing else.
proof fn lemma_run_from(machine: RegistrarModel, event: Event, store: Store, patience: nat, limit: nat, index: int)
    requires
        machine.wf(),
        0 <= index <= machine.records.len(),
        machine.step(event) == machine.turn_to(index),
        limit >= 2 * (machine.records.len() - index),
    ensures
        ({
            let (last, action, after) = run(machine, event, store, patience, limit);
            &&& last.records == machine.records
            &&& last.wf()
            &&& index <= last.cursor
            &&& after == registered(store, machine.records.subrange(index, last.cursor))
            &&& action.is_final()
            &&& action is Finish <==> last.phase == Phase::Finished
            &&& patience >= 2 * (machine.records.len() - index) ==> action is Finish
        }),
    decreases machine.records.len() - index,
{
    let records = machine.records;
    let (next, action) = machine.step(event);
    if index >= records.len() {
        assert(run(machine, event, store, patience, limit) == (next, action, store));
        assert(records.subrange(index, next.cursor) =~= Seq::<RecordModel>::empty());
    } else {
        let record = records[index];
        let (after, reply) = answer(store, action, patience > 0);
        let left: nat = if patience > 0 { (patience - 1) as nat } else { 0 };
        let shorter = (limit - 1) as nat;
        assert(run(machine, event, store, patience, limit) == run(next, reply, after, left, shorter));
        if patience == 0 {
            lemma_run_gives_up(next, store, shorter);
            assert(records.subrange(index, index) =~= Seq::<RecordModel>::empty());
        } else if record.policy == Policy::Overwrite || reply == Event::Found {
            assert(after == written(store, record));
            assert(next.step(reply) == next.turn_to(index + 1));
            lemma_run_from(next, reply, after, left, shorter, index + 1);
            let (last, _, _) = run(next, reply, after, left, shorter);
            lemma_first_record_counts(store, records, index, last.cursor);
        } else {
            let (then, write) = next.step(reply);
            let (second, confirmed) = answer(after, write, left > 0);
            let rest: nat = if left > 0 { (left - 1) as nat } else { 0 };
            let shortest = (shorter - 1) as nat;
            assert(run(next, reply, after, left, shorter) == run(then, confirmed, second, rest, shortest));
            if left == 0 {
                lemma_run_gives_up(then, store, shortest);
                assert(records.subrange(index, index) =~= Seq::<RecordModel>::empty());
            } else {
                assert(second == written(store, record));
                assert(then.step(confirmed) == then.turn_to(index + 1));
                lemma_run_from(then, confirmed, second, rest, shortest, index + 1);
                let (last, _, _) = run(then, confirmed, second, rest, shortest);
                lemma_first_record_counts(store, records, index, last.cursor);
            }
        }
    }
}

/// A request that fails ends the run on the spot, and the store stays as it is.
proof fn lemma_run_gives_up(machine: RegistrarModel, store: Store, limit: nat)
    requires
        machine.phase == Phase::Writing || machine.phase == Phase::Probing,
    ensures
        run(machine, Event::Failed, store, 0, limit) == (machine.give_up().0, ActionModel::Abort, store),
{
}

/// Every step keeps the registrar in one of its states and leaves its
/// records alone; once it has finished or given up, it stays as it is.
pub proof fn law_step_keeps_the_registrar_sound(machine: RegistrarModel, event: Event)
    requires
        machine.wf(),
    ensures
        machine.step(event).0.wf(),
        machine.step(event).0.records == machine.records,
        machine.step(event).0.cursor >= machine.cursor,
        machine.phase == Phase::Finished || machine.phase == Phase::Aborted ==> machine.step(event).0 == machine,
        machine.step(event).1 is Finish <==> machine.step(event).0.phase == Phase::Finished,
        machine.step(event).1 is Abort <==> machine.step(event).0.phase == Phase::Aborted,
{
}

/// A registration carries out a leading part of its records and nothing
/// else: at the end the store holds exactly the records before the cursor,
/// in order, on top of what it held. The registration finishes when the store
/// stays in good health throughout; otherwise it is given up at the first
/// request that fails, with the cursor on the record that was not carried
/// out, and no record after it has been written.
pub proof fn law_run_writes_leading_records(records: Seq<RecordModel>, store: Store, patience: nat, limit: nat)
    requires
        limit >= 2 * records.len(),
    ensures
        ({
            let (last, action, after) = run(RegistrarModel::fresh(records), Event::Start, store, patience, limit);
            &&& 0 <= last.cursor <= records.len()
            &&& after == registered(store, records.take(last.cursor))
            &&& action.is_final()
            &&& action is Finish ==> last.cursor == records.len()
            &&& patience >= 2 * records.len() ==> action is Finish
        }),
{
    let machine = RegistrarModel::fresh(records);
    lemma_run_from(machine, Event::Start, store, patience, limit, 0);
    let (last, action, after) = run(machine, Event::Start, store, patience, limit);
    assert(records.subrange(0, last.cursor) =~= records.take(last.cursor));
}

/// A registration that finishes leaves the store as carrying out every record does.
pub proof fn law_finished_run_registers_everything(records: Seq<RecordModel>, store: Store, patience: nat, limit: nat)
    requires
        limit >= 2 * records.len(),
        run(RegistrarModel::fresh(records), Event::Start, store, patience, limit).1 is Finish,
    ensures
        run(RegistrarModel::fresh(records), Event::Start, store, patience, limit).2 == registered(store, records),
{
    law_run_writes_leading_records(records, store, patience, limit);
    assert(records.take(records.len() as int) =~= records);
}

} // verus!
