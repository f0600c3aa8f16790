use vstd::prelude::*;

verus! {

/// A task record. Timestamps are microseconds since the Unix epoch, in UTC.
#[derive(Debug, PartialEq, Eq)]
pub struct Task {
    pub id: i32,
    pub title: String,
    pub description: Option<String>,
    pub completed: bool,
    pub created_at: i64,
    pub updated_at: i64,
}

/// A partial update: each field that is present overwrites the stored one.
#[derive(Debug, PartialEq, Eq)]
pub struct TaskPatch {
    pub title: Option<String>,
    pub description: Option<String>,
    pub completed: Option<bool>,
}

/// Why an operation on the task store failed.
#[derive(Clone, Copy, Debug, PartialEq, Eq, Structural)]
pub enum TaskError {
    /// No row has the requested id.
    NotFound,
    /// The store rejected the statement or could not be reached.
    Store,
    /// The change notification could not be delivered.
    Publish,
    /// The task could not be rendered as JSON (a timestamp outside the calendar).
    Encode,
}

impl Task {
    /// The lifecycle invariant: a task is never updated before it was created.
    pub open spec fn wf(&self) -> bool {
        self.created_at <= self.updated_at
    }

    /// The fields a client sees change: all but `updated_at`.
    pub open spec fn same_visible(&self, other: &Task) -> bool {
        &&& self.id == other.id
        &&& self.title == other.title
        &&& self.description == other.description
        &&& self.completed == other.completed
        &&& self.created_at == other.created_at
    }

    /// A field-by-field copy.
    pub fn copy(&self) -> (r: Task)
        ensures
            r == *self,
    {
        let description = match &self.description {
            Some(d) => Some(d.clone()),
            None => None,
        };
        Task {
            id: self.id,
            title: self.title.clone(),
            description,
            completed: self.completed,
            created_at: self.created_at,
            updated_at: self.updated_at,
        }
    }
}

/// The value a field takes under a partial update.
pub open spec fn coalesce<T>(given: Option<T>, prior: T) -> T {
    match given {
        Some(v) => v,
        None => prior,
    }
}

/// The time an update records: the clock reading `now`, but never earlier
/// than the stored `updated_at`, so that a clock that stepped back cannot
/// move a row's history backwards.
pub open spec fn advanced(prior_updated_at: i64, now: i64) -> i64 {
    if now < prior_updated_at { prior_updated_at } else { now }
}

/// The row after `patch` is applied at time `now`: present fields overwrite,
/// absent ones keep their value, and `updated_at` advances to `now`.
pub open spec fn patched(prior: Task, patch: TaskPatch, now: i64) -> Task {
    Task {
        id: prior.id,
        title: coalesce(patch.title, prior.title),
        description: match patch.description {
            Some(d) => Some(d),
            None => prior.description,
        },
        completed: coalesce(patch.completed, prior.completed),
        created_at: prior.created_at,
        updated_at: advanced(prior.updated_at, now),
    }
}

/// The row a create stores: not completed, and both timestamps equal `now`.
pub open spec fn created(id: i32, title: String, description: Option<String>, now: i64) -> Task {
    Task { id, title, description, completed: false, created_at: now, updated_at: now }
}

/// Builds the record for a newly inserted row whose id the store assigned.
pub fn new_task(id: i32, title: String, description: Option<String>, now: i64) -> (r: Task)
    ensures
        r == created(id, title, description, now),
        r.created_at == r.updated_at,
        !r.completed,
        r.wf(),
{
    Task { id, title, description, completed: false, created_at: now, updated_at: now }
}

/// Applies a partial update to the stored row `prior` at time `now`.
pub fn merge_update(prior: Task, patch: TaskPatch, now: i64) -> (r: Task)
    ensures
        r == patched(prior, patch, now),
        prior.wf() ==> r.wf(),
        r.updated_at >= prior.updated_at,
{
    let title = match patch.title {
        Some(t) => t,
        None => prior.title,
    };
    let description = match patch.description {
        Some(d) => Some(d),
        None => prior.description,
    };
    let completed = match patch.completed {
        Some(c) => c,
        None => prior.completed,
    };
    let updated_at = if now < prior.updated_at { prior.updated_at } else { now };
    Task { id: prior.id, title, description, completed, created_at: prior.created_at, updated_at }
}

/// A created task is not completed and was last updated when it was created.
pub proof fn lemma_create_fresh(id: i32, title: String, description: Option<String>, now: i64)
    ensures
        created(id, title, description, now).created_at == created(id, title, description, now).updated_at,
        !created(id, title, description, now).completed,
        created(id, title, description, now).wf(),
{
}

/// An update with no field present, made once the clock has moved past the
/// stored `updated_at`, leaves every other field as it was and strictly
/// advances `updated_at`.
pub proof fn lemma_empty_patch_keeps_row(prior: Task, now: i64)
    requires
        now > prior.updated_at,
    ensures
        ({
            let r = patched(prior, TaskPatch { title: None, description: None, completed: None }, now);
            &&& r.same_visible(&prior)
            &&& r.updated_at == now
            &&& r.updated_at > prior.updated_at
        }),
{
}

/// Each field given in a patch takes the given value; each absent field keeps
/// its prior value; id and creation time never change.
pub proof fn lemma_patch_coalesces(prior: Task, patch: TaskPatch, now: i64)
    ensures
        ({
            let r = patched(prior, patch, now);
            &&& (patch.title matches Some(t) ==> r.title == t)
            &&& (patch.title is None ==> r.title == prior.title)
            &&& (patch.description matches Some(d) ==> r.description == Some(d))
            &&& (patch.description is None ==> r.description == prior.description)
            &&& (patch.completed matches Some(c) ==> r.completed == c)
            &&& (patch.completed is None ==> r.completed == prior.completed)
            &&& r.id == prior.id
            &&& r.created_at == prior.created_at
        }),
{
}

/// Applying the same full update twice, the second time later than the first
/// on a clock that has not stepped back, gives the same visible fields both
/// times; only `updated_at` differs.
pub proof fn lemma_full_patch_idempotent(
    prior: Task,
    title: String,
    description: String,
    completed: bool,
    first: i64,
    second: i64,
)
    requires
        prior.updated_at <= first < second,
    ensures
        ({
            let patch = TaskPatch { title: Some(title), description: Some(description), completed: Some(completed) };
            let once = patched(prior, patch, first);
            let twice = patched(once, patch, second);
            &&& twice.same_visible(&once)
            &&& once.updated_at == first
            &&& twice.updated_at == second
        }),
{
}

} // verus!
