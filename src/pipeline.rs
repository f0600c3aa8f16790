use vstd::prelude::*;
use crate::json::{encode_task, in_calendar, task_json_of, TASK_TOPIC};
use crate::task::{
    lemma_empty_patch_keeps_row, lemma_full_patch_idempotent, merge_update, patched, Task, TaskError, TaskPatch,
};

verus! {

/// Where an update stands: persist first, then announce.
#[derive(Debug, PartialEq, Eq)]
pub enum Phase {
    /// Waiting for the stored row, with the update still to apply.
    Fetching { patch: TaskPatch },
    /// Waiting for the store to accept the merged row.
    Writing { task: Task },
    /// The row is stored; waiting for the announcement to be delivered.
    Publishing { task: Task },
    /// The outcome has been reported.
    Done,
}

/// What the store or the message bus reports back to the pipeline.
#[derive(Debug, PartialEq, Eq)]
pub enum Event {
    /// The row read for update, or `None` when no row has the id; `now` is the
    /// time of the update, in microseconds since the Unix epoch.
    Fetched { row: Option<Task>, now: i64 },
    FetchFailed,
    Written,
    WriteFailed,
    Published,
    PublishFailed,
}

/// What the pipeline asks its driver to do next.
#[derive(Debug, PartialEq, Eq)]
pub enum Action {
    /// Read the row with this id, holding it for update.
    Fetch { id: i32 },
    /// Store this row in place of the one read.
    Write { task: Task },
    /// Deliver `payload` on `topic`.
    Publish { topic: &'static str, payload: String },
    /// The update is over, with this result for the caller.
    Finish { result: Result<Task, TaskError> },
    /// The event does not belong to the current phase; nothing to do.
    Ignore,
}

/// One update request, driven one event at a time: read, merge, write, publish.
#[derive(Debug, PartialEq, Eq)]
pub struct UpdatePipeline {
    pub id: i32,
    pub phase: Phase,
}

/// The pipeline as `start` leaves it.
pub open spec fn started(id: i32, patch: TaskPatch) -> UpdatePipeline {
    UpdatePipeline { id, phase: Phase::Fetching { patch } }
}

/// The payload an action hands to the bus, if it publishes.
pub open spec fn payload_of(a: Action) -> Option<String> {
    match a {
        Action::Publish { payload, .. } => Some(payload),
        _ => None,
    }
}

/// A published payload is the JSON of the row that was just written.
pub open spec fn announces_written_row(ph: Phase, a: Action) -> bool {
    match (ph, payload_of(a)) {
        (Phase::Writing { task }, Some(s)) => s@ == task_json_of(task),
        _ => true,
    }
}

/// A written row whose timestamps the calendar holds is always announced.
pub open spec fn announces_encodable_row(ph: Phase, e: Event, a: Action) -> bool {
    match (ph, e) {
        (Phase::Writing { task }, Event::Written) => in_calendar(task.created_at as int) && in_calendar(
            task.updated_at as int,
        ) ==> a is Publish,
        _ => true,
    }
}

/// A row merged from a well-formed stored row is well formed.
pub open spec fn merges_well_formed(ph: Phase, e: Event, next_phase: Phase) -> bool {
    match (ph, e, next_phase) {
        (Phase::Fetching { .. }, Event::Fetched { row: Some(prior), .. }, Phase::Writing { task }) => prior.wf()
            ==> task.wf(),
        _ => true,
    }
}

/// One transition. `payload` is the encoding of the stored task, or `None`
/// when it could not be encoded; only a written row looks at it.
pub open spec fn next(p: UpdatePipeline, e: Event, payload: Option<String>) -> (UpdatePipeline, Action) {
    let done = UpdatePipeline { id: p.id, phase: Phase::Done };
    match p.phase {
        Phase::Fetching { patch } => match e {
            Event::Fetched { row: Some(prior), now } => {
                let task = patched(prior, patch, now);
                (UpdatePipeline { id: p.id, phase: Phase::Writing { task } }, Action::Write { task })
            },
            Event::Fetched { row: None, .. } => (done, Action::Finish { result: Err(TaskError::NotFound) }),
            Event::FetchFailed => (done, Action::Finish { result: Err(TaskError::Store) }),
            _ => (p, Action::Ignore),
        },
        Phase::Writing { task } => match e {
            Event::Written => match payload {
                Some(s) => (
                    UpdatePipeline { id: p.id, phase: Phase::Publishing { task } },
                    Action::Publish { topic: TASK_TOPIC, payload: s },
                ),
                None => (done, Action::Finish { result: Err(TaskError::Encode) }),
            },
            Event::WriteFailed => (done, Action::Finish { result: Err(TaskError::Store) }),
            _ => (p, Action::Ignore),
        },
        Phase::Publishing { task } => match e {
            Event::Published => (done, Action::Finish { result: Ok(task) }),
            Event::PublishFailed => (done, Action::Finish { result: Err(TaskError::Publish) }),
            _ => (p, Action::Ignore),
        },
        Phase::Done => (p, Action::Ignore),
    }
}

/// The actions a pipeline emits for a sequence of events, the i-th written row
/// encoding to `payloads[i]`.
pub open spec fn run(p: UpdatePipeline, events: Seq<Event>, payloads: Seq<Option<String>>) -> Seq<Action>
    decreases events.len(),
{
    if events.len() == 0 {
        Seq::empty()
    } else {
        let payload = if payloads.len() > 0 { payloads[0] } else { None };
        let (q, a) = next(p, events[0], payload);
        seq![a] + run(q, events.drop_first(), if payloads.len() > 0 { payloads.drop_first() } else { payloads })
    }
}

/// Whether the pipeline has announced, or finished: nothing is published from here on.
pub open spec fn announced_or_done(ph: Phase) -> bool {
    ph is Publishing || ph is Done
}

/// Once the row is announced, or the outcome reported, no later event makes
/// the pipeline publish.
pub proof fn lemma_quiet_after_announcing(p: UpdatePipeline, events: Seq<Event>, payloads: Seq<Option<String>>)
    requires
        announced_or_done(p.phase),
    ensures
        forall|i: int| 0 <= i < run(p, events, payloads).len() ==> !(#[trigger] run(p, events, payloads)[i] is Publish),
    decreases events.len(),
{
    if events.len() > 0 {
        let payload = if payloads.len() > 0 { payloads[0] } else { None };
        let rest = if payloads.len() > 0 { payloads.drop_first() } else { payloads };
        let (q, a) = next(p, events[0], payload);
        lemma_quiet_after_announcing(q, events.drop_first(), rest);
        let out = run(p, events, payloads);
        assert(out == seq![a] + run(q, events.drop_first(), rest));
        assert forall|i: int| 0 <= i < out.len() implies !(#[trigger] out[i] is Publish) by {
            if i > 0 {
                assert(out[i] == run(q, events.drop_first(), rest)[i - 1]);
            }
        }
    }
}

/// An update whose row does not exist finishes with `NotFound` and never
/// publishes, whatever events follow.
pub proof fn lemma_missing_row_never_publishes(
    id: i32,
    patch: TaskPatch,
    now: i64,
    later: Seq<Event>,
    payloads: Seq<Option<String>>,
)
    ensures
        ({
            let (q, a) = next(started(id, patch), Event::Fetched { row: None, now }, None);
            &&& a == (Action::Finish { result: Err(TaskError::NotFound) })
            &&& forall|i: int| 0 <= i < run(q, later, payloads).len()
                ==> !(#[trigger] run(q, later, payloads)[i] is Publish)
        }),
{
    let (q, a) = next(started(id, patch), Event::Fetched { row: None, now }, None);
    lemma_quiet_after_announcing(q, later, payloads);
}

/// A pipeline publishes at most once, whatever events it is given.
pub proof fn lemma_publishes_at_most_once(p: UpdatePipeline, events: Seq<Event>, payloads: Seq<Option<String>>)
    ensures
        forall|i: int, j: int|
            0 <= i < j < run(p, events, payloads).len() && (#[trigger] run(p, events, payloads)[i] is Publish)
                ==> !(#[trigger] run(p, events, payloads)[j] is Publish),
    decreases events.len(),
{
    if events.len() > 0 {
        let payload = if payloads.len() > 0 { payloads[0] } else { None };
        let rest = if payloads.len() > 0 { payloads.drop_first() } else { payloads };
        let (q, a) = next(p, events[0], payload);
        let tail = run(q, events.drop_first(), rest);
        let out = run(p, events, payloads);
        assert(out == seq![a] + tail);
        lemma_publishes_at_most_once(q, events.drop_first(), rest);
        if a is Publish {
            lemma_quiet_after_announcing(q, events.drop_first(), rest);
        }
        assert forall|i: int, j: int|
            0 <= i < j < out.len() && (#[trigger] out[i] is Publish) implies !(#[trigger] out[j] is Publish) by {
            assert(out[j] == tail[j - 1]);
            if i > 0 {
                assert(out[i] == tail[i - 1]);
            }
        }
    }
}

/// An update of an existing row that is stored and announced writes the
/// merged row once, publishes the payload once on the task topic, and returns
/// the merged row.
pub proof fn lemma_successful_update(id: i32, patch: TaskPatch, prior: Task, now: i64, payload: String)
    ensures
        run(
            started(id, patch),
            seq![Event::Fetched { row: Some(prior), now }, Event::Written, Event::Published],
            seq![None, Some(payload), None],
        ) == seq![
            Action::Write { task: patched(prior, patch, now) },
            Action::Publish { topic: TASK_TOPIC, payload },
            Action::Finish { result: Ok(patched(prior, patch, now)) },
        ],
{
    let events = seq![Event::Fetched { row: Some(prior), now }, Event::Written, Event::Published];
    let payloads = seq![None, Some(payload), None];
    let task = patched(prior, patch, now);
    let p1 = UpdatePipeline { id, phase: Phase::Writing { task } };
    let p2 = UpdatePipeline { id, phase: Phase::Publishing { task } };
    let p3 = UpdatePipeline { id, phase: Phase::Done };
    assert(events.drop_first() == seq![Event::Written, Event::Published]);
    assert(payloads.drop_first() == seq![Some(payload), None]);
    assert(events.drop_first().drop_first() == seq![Event::Published]);
    assert(payloads.drop_first().drop_first() == seq![None::<String>]);
    assert(events.drop_first().drop_first().drop_first() =~= Seq::<Event>::empty());
    assert(run(p3, Seq::<Event>::empty(), payloads.drop_first().drop_first().drop_first()) == Seq::<Action>::empty());
    assert(run(p2, seq![Event::Published], seq![None::<String>]) =~= seq![Action::Finish { result: Ok(task) }]);
    assert(run(p1, seq![Event::Written, Event::Published], seq![Some(payload), None])
        =~= seq![Action::Publish { topic: TASK_TOPIC, payload }, Action::Finish { result: Ok(task) }]);
    assert(run(started(id, patch), events, payloads) =~= seq![
        Action::Write { task },
        Action::Publish { topic: TASK_TOPIC, payload },
        Action::Finish { result: Ok(task) },
    ]);
}

/// The events of an update whose row exists, is stored and is announced.
pub open spec fn successful_events(prior: Task, now: i64) -> Seq<Event> {
    seq![Event::Fetched { row: Some(prior), now }, Event::Written, Event::Published]
}

/// The row such an update returns.
pub open spec fn returned(actions: Seq<Action>) -> Option<Task> {
    match actions.last() {
        Action::Finish { result: Ok(t) } => Some(t),
        _ => None,
    }
}

/// An update with no field present, stored and announced while the clock is
/// past the row's `updated_at`, returns the row unchanged but for a later
/// `updated_at`.
pub proof fn lemma_empty_update_returns_row(id: i32, prior: Task, now: i64, payload: String)
    requires
        now > prior.updated_at,
    ensures
        ({
            let empty = TaskPatch { title: None, description: None, completed: None };
            let out = run(started(id, empty), successful_events(prior, now), seq![None, Some(payload), None]);
            returned(out) matches Some(r) && r.same_visible(&prior) && r.updated_at > prior.updated_at
        }),
{
    let empty = TaskPatch { title: None, description: None, completed: None };
    lemma_successful_update(id, empty, prior, now, payload);
    lemma_empty_patch_keeps_row(prior, now);
}

/// The same full update, stored and announced twice, the second time later
/// than the first, returns rows that differ only in `updated_at`.
pub proof fn lemma_full_update_twice(
    id: i32,
    prior: Task,
    title: String,
    description: String,
    completed: bool,
    first: i64,
    second: i64,
    payload1: String,
    payload2: String,
)
    requires
        prior.updated_at <= first < second,
    ensures
        ({
            let patch = TaskPatch { title: Some(title), description: Some(description), completed: Some(completed) };
            let out1 = run(started(id, patch), successful_events(prior, first), seq![None, Some(payload1), None]);
            let r1 = returned(out1)->0;
            let out2 = run(started(id, patch), successful_events(r1, second), seq![None, Some(payload2), None]);
            &&& returned(out1) is Some
            &&& returned(out2) matches Some(r2) && r2.same_visible(&r1) && r2.updated_at > r1.updated_at
        }),
{
    let patch = TaskPatch { title: Some(title), description: Some(description), completed: Some(completed) };
    lemma_successful_update(id, patch, prior, first, payload1);
    let r1 = patched(prior, patch, first);
    lemma_successful_update(id, patch, r1, second, payload2);
    lemma_full_patch_idempotent(prior, title, description, completed, first, second);
}

impl UpdatePipeline {
    /// Begins an update of the row `id`; the first action reads that row.
    pub fn start(id: i32, patch: TaskPatch) -> (r: (UpdatePipeline, Action))
        ensures
            r.0 == started(id, patch),
            r.1 == (Action::Fetch { id }),
    {
        (UpdatePipeline { id, phase: Phase::Fetching { patch } }, Action::Fetch { id })
    }

    /// Takes the next event and returns the new state and the next action.
    /// Publication comes only after the store accepted the row, and carries
    /// that row's JSON.
    pub fn step(self, event: Event) -> (r: (UpdatePipeline, Action))
        ensures
            r == next(self, event, payload_of(r.1)),
            r.1 is Publish ==> (self.phase is Writing && event is Written),
            announces_written_row(self.phase, r.1),
            announces_encodable_row(self.phase, event, r.1),
            merges_well_formed(self.phase, event, r.0.phase),
    {
        let id = self.id;
        match self.phase {
            Phase::Fetching { patch } => match event {
                Event::Fetched { row: Some(prior), now } => {
                    let task = merge_update(prior, patch, now);
                    let copy = task.copy();
                    (UpdatePipeline { id, phase: Phase::Writing { task } }, Action::Write { task: copy })
                },
                Event::Fetched { row: None, .. } => (
                    UpdatePipeline { id, phase: Phase::Done },
                    Action::Finish { result: Err(TaskError::NotFound) },
                ),
                Event::FetchFailed => (
                    UpdatePipeline { id, phase: Phase::Done },
                    Action::Finish { result: Err(TaskError::Store) },
                ),
                _ => (UpdatePipeline { id, phase: Phase::Fetching { patch } }, Action::Ignore),
            },
            Phase::Writing { task } => match event {
                Event::Written => match encode_task(&task) {
                    Some(s) => (
                        UpdatePipeline { id, phase: Phase::Publishing { task } },
                        Action::Publish { topic: TASK_TOPIC, payload: s },
                    ),
                    None => (
                        UpdatePipeline { id, phase: Phase::Done },
                        Action::Finish { result: Err(TaskError::Encode) },
                    ),
                },
                Event::WriteFailed => (
                    UpdatePipeline { id, phase: Phase::Done },
                    Action::Finish { result: Err(TaskError::Store) },
                ),
                _ => (UpdatePipeline { id, phase: Phase::Writing { task } }, Action::Ignore),
            },
            Phase::Publishing { task } => match event {
                Event::Published => (
                    UpdatePipeline { id, phase: Phase::Done },
                    Action::Finish { result: Ok(task) },
                ),
                Event::PublishFailed => (
                    UpdatePipeline { id, phase: Phase::Done },
                    Action::Finish { result: Err(TaskError::Publish) },
                ),
                _ => (UpdatePipeline { id, phase: Phase::Publishing { task } }, Action::Ignore),
            },
            Phase::Done => (UpdatePipeline { id, phase: Phase::Done }, Action::Ignore),
        }
    }
}

} // verus!
