//! The todo record as the store keeps it.

use vstd::prelude::*;

verus! {

/// A point in time with the offset from UTC that it was written with.
#[derive(Debug, Clone, Copy, PartialEq, Eq)]
pub struct Timestamp {
    /// Whole seconds since the Unix epoch.
    pub seconds: i64,
    /// Nanoseconds past the whole second.
    pub nanos: u32,
    /// Offset of the local time from UTC, in seconds.
    pub offset_seconds: i32,
}

impl Timestamp {
    /// The point in time in nanoseconds since the Unix epoch, whatever the offset.
    pub open spec fn instant(self) -> int {
        self.seconds * 1_000_000_000 + self.nanos
    }
}

/// One row of the store.
#[derive(Debug, Clone, PartialEq)]
pub struct Model {
    pub id: i32,
    pub title: String,
    pub description: String,
    pub done: bool,
    pub created_at: Timestamp,
    pub updated_at: Timestamp,
}

/// A row as a mathematical value.
pub struct Todo {
    pub id: i32,
    pub title: Seq<char>,
    pub description: Seq<char>,
    pub done: bool,
    pub created_at: Timestamp,
    pub updated_at: Timestamp,
}

impl View for Model {
    type V = Todo;

    open spec fn view(&self) -> Todo {
        Todo {
            id: self.id,
            title: self.title@,
            description: self.description@,
            done: self.done,
            created_at: self.created_at,
            updated_at: self.updated_at,
        }
    }
}

/// The rows of a list, each as a mathematical value.
pub open spec fn todos(rows: Seq<Model>) -> Seq<Todo> {
    rows.map_values(|m: Model| m@)
}

/// An optional row as a mathematical value.
pub open spec fn optional_todo(row: Option<Model>) -> Option<Todo> {
    match row {
        Some(m) => Some(m@),
        None => None,
    }
}

} // verus!
