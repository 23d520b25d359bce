//! A reference model of the store.
//!
//! The model says how a store is expected to answer the requests of the
//! service: which rows a lookup or a listing returns, what an insert, an update
//! and a delete change, and what a transaction hides until it is committed. It
//! is ghost code. `play` plays an operation of the service against the model,
//! and the laws of this crate are stated about such runs.

use crate::errors::CustomErrorView;
use crate::service::{StepView, SuccessView};
use crate::store::{StoreFailure, StoreReplyView, StoreRequestView, TodoPatchView};
use crate::todo::{Timestamp, Todo};
use vstd::prelude::*;

verus! {

/// The table of todos.
pub struct Table {
    /// The rows by their keys.
    pub rows: Map<i32, Todo>,
    /// The keys of the rows, the most recently updated first.
    pub recent: Seq<i32>,
    /// The key that the next new row gets; no row has this key or a larger one.
    pub next_key: int,
}

/// The store: the table as committed, and the table as the open transaction sees
/// it, if a transaction is open.
pub struct Database {
    pub committed: Table,
    pub open: Option<Table>,
}

/// Whether `part` occurs in `text` as a run of consecutive characters.
pub open spec fn contains_text(text: Seq<char>, part: Seq<char>) -> bool {
    exists|i: int|
        0 <= i && i + part.len() <= text.len() && #[trigger] text.subrange(i, i + part.len())
            == part
}

/// Whether a row with this title passes the filter of a listing.
pub open spec fn passes(title: Seq<char>, filter: Option<Seq<char>>) -> bool {
    match filter {
        Some(part) => contains_text(title, part),
        None => true,
    }
}

/// The test that a key is another than `key`.
pub open spec fn other_than(key: i32) -> spec_fn(i32) -> bool {
    |k: i32| k != key
}

/// The smaller of two numbers.
pub open spec fn at_most(a: int, b: int) -> int {
    if a <= b {
        a
    } else {
        b
    }
}

impl Table {
    /// Whether the table has a row with this key.
    pub open spec fn holds(self, key: i32) -> bool {
        self.rows.dom().contains(key)
    }

    /// Whether the service's `id` is the key of a row.
    pub open spec fn holds_id(self, id: usize) -> bool {
        id <= i32::MAX && self.holds(id as i32)
    }

    /// Whether a row other than the one with key `except` has this title.
    pub open spec fn title_taken(self, title: Seq<char>, except: Option<i32>) -> bool {
        exists|k: i32| #[trigger]
            self.holds(k) && Some(k) != except && self.rows[k].title == title
    }

    /// The table's invariant: every row is kept under its own key, keys are positive
    /// and below the next key, `recent` lists every key once, no row comes before one
    /// that was updated later, no two rows share a title, and no row was updated
    /// before it was created.
    pub open spec fn wf(self) -> bool {
        &&& 1 <= self.next_key
        &&& forall|k: i32| #[trigger]
            self.holds(k) ==> self.rows[k].id == k && 1 <= k < self.next_key
                && self.rows[k].created_at.instant() <= self.rows[k].updated_at.instant()
        &&& self.recent.no_duplicates()
        &&& forall|k: i32| self.recent.contains(k) <==> #[trigger] self.holds(k)
        &&& forall|i: int, j: int|
            0 <= i < j < self.recent.len() ==> self.rows[#[trigger] self.recent[i]].updated_at.instant()
                >= self.rows[#[trigger] self.recent[j]].updated_at.instant()
        &&& forall|k: i32, l: i32|
            #[trigger] self.holds(k) && #[trigger] self.holds(l) && k != l ==> self.rows[k].title
                != self.rows[l].title
    }

    /// Whether every row was last updated before `now`.
    pub open spec fn before(self, now: Timestamp) -> bool {
        forall|k: i32| #[trigger]
            self.holds(k) ==> self.rows[k].updated_at.instant() < now.instant()
    }

    /// Whether no row was last updated after `now`.
    pub open spec fn until(self, now: Timestamp) -> bool {
        forall|k: i32| #[trigger]
            self.holds(k) ==> self.rows[k].updated_at.instant() <= now.instant()
    }

    /// The row with this key, if there is one.
    pub open spec fn select(self, key: i32) -> Option<Todo> {
        if self.holds(key) {
            Some(self.rows[key])
        } else {
            None
        }
    }

    /// The rows that pass the filter, the most recently updated first; rows updated
    /// at the same time come in the order of `recent`.
    pub open spec fn listing(self, filter: Option<Seq<char>>) -> Seq<Todo> {
        self.recent.filter(|k: i32| passes(self.rows[k].title, filter)).map_values(
            |k: i32| self.rows[k],
        )
    }

    /// Page number `page`, counted from zero, of the listing cut into pages of
    /// `items_per_page` rows; empty where the listing ends before the page begins.
    pub open spec fn page(self, filter: Option<Seq<char>>, items_per_page: usize, page: usize) -> Seq<
        Todo,
    > {
        let all = self.listing(filter);
        let from = at_most(items_per_page * page, all.len() as int);
        let to = at_most(from + items_per_page, all.len() as int);
        all.subrange(from, to)
    }

    /// Insert: refused where the title is taken, failing where the keys have run
    /// out; else a new row under the next key, created and updated `now`.
    pub open spec fn insert(self, title: Seq<char>, description: Seq<char>, done: bool, now: Timestamp) -> (
        StoreReplyView,
        Table,
    ) {
        if self.title_taken(title, None) {
            (StoreReplyView::Failed(StoreFailure::TitleTaken), self)
        } else if self.next_key > i32::MAX {
            (StoreReplyView::Failed(StoreFailure::Other), self)
        } else {
            let key = self.next_key as i32;
            let row = Todo { id: key, title, description, done, created_at: now, updated_at: now };
            (
                StoreReplyView::Inserted { last_insert_id: key },
                Table {
                    rows: self.rows.insert(key, row),
                    recent: seq![key] + self.recent,
                    next_key: self.next_key + 1,
                },
            )
        }
    }

    /// Update: failing where no row has the key, refused where the new title is
    /// taken by another row; else the changes are written and the row counts
    /// as updated `now`.
    pub open spec fn update(self, key: i32, changes: TodoPatchView, now: Timestamp) -> (
        StoreReplyView,
        Table,
    ) {
        if !self.holds(key) {
            (StoreReplyView::Failed(StoreFailure::Other), self)
        } else if changes.title is Some && self.title_taken(changes.title->0, Some(key)) {
            (StoreReplyView::Failed(StoreFailure::TitleTaken), self)
        } else {
            let written = changes.applied_to(self.rows[key]);
            let row = Todo { updated_at: now, ..written };
            (
                StoreReplyView::Updated,
                Table {
                    rows: self.rows.insert(key, row),
                    recent: seq![key] + self.recent.filter(other_than(key)),
                    next_key: self.next_key,
                },
            )
        }
    }

    /// Delete: the row with the key is gone; where there was none, nothing changes.
    pub open spec fn delete(self, key: i32) -> Table {
        Table {
            rows: self.rows.remove(key),
            recent: self.recent.filter(other_than(key)),
            next_key: self.next_key,
        }
    }

    /// The answer to a request that reads or writes rows, and the table after it.
    pub open spec fn answer(self, request: StoreRequestView, now: Timestamp) -> (
        StoreReplyView,
        Table,
    ) {
        match request {
            StoreRequestView::SelectPage { title_contains, items_per_page, page } => (
                StoreReplyView::Page(self.page(title_contains, items_per_page, page)),
                self,
            ),
            StoreRequestView::SelectById { key } => (StoreReplyView::Row(self.select(key)), self),
            StoreRequestView::Insert { title, description, done } => self.insert(
                title,
                description,
                done,
                now,
            ),
            StoreRequestView::Update { key, changes } => self.update(key, changes, now),
            StoreRequestView::Delete { key } => (StoreReplyView::Deleted, self.delete(key)),
            _ => (StoreReplyView::Failed(StoreFailure::Other), self),
        }
    }
}

impl Database {
    /// A store with this table and no transaction open.
    pub open spec fn idle(table: Table) -> Database {
        Database { committed: table, open: None }
    }

    /// The answer to a request, and the store after it. `Begin` gives the transaction
    /// its own copy of the table; while it is open every request reads and writes that
    /// copy; `Commit` makes the copy the table.
    pub open spec fn answer(self, request: StoreRequestView, now: Timestamp) -> (
        StoreReplyView,
        Database,
    ) {
        match request {
            StoreRequestView::Begin => if self.open is None {
                (StoreReplyView::Begun, Database { committed: self.committed, open: Some(self.committed) })
            } else {
                (StoreReplyView::Failed(StoreFailure::Other), self)
            },
            StoreRequestView::Commit => match self.open {
                Some(table) => (StoreReplyView::Committed, Database::idle(table)),
                None => (StoreReplyView::Failed(StoreFailure::Other), self),
            },
            _ => match self.open {
                Some(table) => {
                    let (reply, after) = table.answer(request, now);
                    (reply, Database { committed: self.committed, open: Some(after) })
                },
                None => {
                    let (reply, after) = self.committed.answer(request, now);
                    (reply, Database::idle(after))
                },
            },
        }
    }
}

/// Plays an operation against the store from `step` on: every request is answered
/// as the model says, with `now` as the time of every write, until the operation
/// finishes. The result is the outcome and the store as it is then; a transaction
/// that is still open has not been committed.
pub open spec fn play(step: StepView, db: Database, now: Timestamp) -> (
    Result<SuccessView, CustomErrorView>,
    Database,
)
    decreases step.requests_left(),
{
    match step {
        StepView::Finish(outcome) => (outcome, db),
        StepView::Ask { pending, request } => {
            let (reply, after) = db.answer(request, now);
            play(pending.resume(reply), after, now)
        },
    }
}

/// Plays a whole operation against a store with no transaction open. The result is
/// the outcome and the table that is committed when the operation has finished: what
/// an open transaction has written is rolled back.
pub open spec fn serve(step: StepView, table: Table, now: Timestamp) -> (
    Result<SuccessView, CustomErrorView>,
    Table,
) {
    let (outcome, db) = play(step, Database::idle(table), now);
    (outcome, db.committed)
}

} // verus!
