use vstd::prelude::*;

verus! {

/// A point in time, in whole seconds since the Unix epoch and the
/// nanoseconds past that second (above one billion only inside a leap second).
#[derive(Debug, Clone, Copy, PartialEq, Eq, Structural)]
pub struct Timestamp {
    pub secs: i64,
    pub nanos: u32,
}

impl Timestamp {
    pub open spec fn wf(self) -> bool {
        self.nanos < 2_000_000_000
    }

    /// `self` is not later than `other`.
    pub open spec fn le(self, other: Timestamp) -> bool {
        self.secs < other.secs || (self.secs == other.secs && self.nanos <= other.nanos)
    }
}

/// A todo record. `id` and the two timestamps are absent only before the
/// record is stored.
#[derive(Debug, Clone)]
pub struct Todo {
    pub id: Option<String>,
    pub title: String,
    pub content: String,
    pub completed: bool,
    pub created_at: Option<Timestamp>,
    pub updated_at: Option<Timestamp>,
}

/// The mathematical value of a [`Todo`].
pub struct TodoView {
    pub id: Option<Seq<char>>,
    pub title: Seq<char>,
    pub content: Seq<char>,
    pub completed: bool,
    pub created_at: Option<Timestamp>,
    pub updated_at: Option<Timestamp>,
}

pub open spec fn opt_str_view(s: Option<String>) -> Option<Seq<char>> {
    match s {
        Some(v) => Some(v@),
        None => None,
    }
}

impl View for Todo {
    type V = TodoView;

    open spec fn view(&self) -> TodoView {
        TodoView {
            id: opt_str_view(self.id),
            title: self.title@,
            content: self.content@,
            completed: self.completed,
            created_at: self.created_at,
            updated_at: self.updated_at,
        }
    }
}

pub fn copy_opt_str(s: &Option<String>) -> (r: Option<String>)
    ensures
        opt_str_view(r) == opt_str_view(*s),
{
    match s {
        Some(v) => Some(v.clone()),
        None => None,
    }
}

impl Todo {
    /// A copy of the record with the same value.
    pub fn duplicate(&self) -> (r: Todo)
        ensures
            r@ == self@,
    {
        Todo {
            id: copy_opt_str(&self.id),
            title: self.title.clone(),
            content: self.content.clone(),
            completed: self.completed,
            created_at: self.created_at,
            updated_at: self.updated_at,
        }
    }

    /// Whether the record's id is exactly `id`.
    pub fn has_id(&self, id: &String) -> (r: bool)
        ensures
            r == (self@.id == Some(id@)),
    {
        match &self.id {
            Some(v) => *v == *id,
            None => false,
        }
    }
}

/// A partial patch: the fields to change in a stored record.
#[derive(Debug, Clone)]
pub struct UpdateTodoSchema {
    pub title: Option<String>,
    pub content: Option<String>,
    pub completed: Option<bool>,
}

pub struct UpdateTodoView {
    pub title: Option<Seq<char>>,
    pub content: Option<Seq<char>>,
    pub completed: Option<bool>,
}

impl View for UpdateTodoSchema {
    type V = UpdateTodoView;

    open spec fn view(&self) -> UpdateTodoView {
        UpdateTodoView {
            title: opt_str_view(self.title),
            content: opt_str_view(self.content),
            completed: self.completed,
        }
    }
}

/// The record a create stores: the caller's title and content, a fresh id,
/// not completed, created and updated at `now`.
pub open spec fn created(body: TodoView, id: Seq<char>, now: Timestamp) -> TodoView {
    TodoView {
        id: Some(id),
        title: body.title,
        content: body.content,
        completed: false,
        created_at: Some(now),
        updated_at: Some(now),
    }
}

/// A submitted text replaces the current one unless it is absent or empty.
pub open spec fn merged_text(submitted: Option<Seq<char>>, current: Seq<char>) -> Seq<char> {
    match submitted {
        Some(s) => if s.len() > 0 { s } else { current },
        None => current,
    }
}

/// The record an update leaves: title and content merged, `completed` as
/// submitted or else cleared, creation time kept, updated at `now`.
pub open spec fn patched(cur: TodoView, patch: UpdateTodoView, now: Timestamp) -> TodoView {
    TodoView {
        id: cur.id,
        title: merged_text(patch.title, cur.title),
        content: merged_text(patch.content, cur.content),
        completed: match patch.completed {
            Some(c) => c,
            None => false,
        },
        created_at: cur.created_at,
        updated_at: Some(now),
    }
}

/// The text that stands after an update: `submitted` if present and not
/// empty, else a copy of `current`.
pub fn merge_text(submitted: &Option<String>, current: &String) -> (r: String)
    ensures
        r@ == merged_text(opt_str_view(*submitted), current@),
{
    match submitted {
        Some(s) => {
            if !s.as_str().is_empty() {
                s.clone()
            } else {
                current.clone()
            }
        },
        None => current.clone(),
    }
}

} // verus!
