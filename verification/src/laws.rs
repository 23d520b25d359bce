//! Laws of the service: what holds of every operation when the store answers
//! as the reference model says.

use crate::controller::{
    create_todo_step, get_list_of_todos_step, reply_of, update_todo_step, GetTodosQueryView,
};
use crate::dtos::{CreateTodoDtoView, UpdateTodoDtoView};
use crate::errors::CustomErrorView;
use crate::model::{other_than, passes, play, serve, Database, Table};
use crate::responses::CustomResponseView;
use crate::service::{
    bulk_delete_todos_by_ids_step, bulk_step, delete_todo_by_id_step, find_todo_by_id_step,
    key_of, SuccessView,
};
use crate::store::{StoreRequestView, TodoPatchView};
use crate::todo::{Timestamp, Todo};
use crate::validation::{
    length_within, optional_length_within, Field, DESCRIPTION_MAX, DESCRIPTION_MIN, TITLE_MAX,
    TITLE_MIN,
};
use vstd::prelude::*;

verus! {

/// The outcome that is the error `NotFound`.
pub open spec fn not_found() -> Result<SuccessView, CustomErrorView> {
    Err(CustomErrorView::NotFound)
}

/// The outcome that is the report of a write.
pub open spec fn report(response: CustomResponseView) -> Result<SuccessView, CustomErrorView> {
    Ok(SuccessView::Written(response))
}

/// A payload with a title or a description out of bounds is answered with 400 and
/// with every field that is out of bounds, whatever the store holds, and the store
/// is not touched. This holds of a create and, for the fields that are present, of
/// an update.
pub proof fn lemma_invalid_payload_is_turned_down(
    table: Table,
    id: usize,
    create: CreateTodoDtoView,
    update: UpdateTodoDtoView,
    now: Timestamp,
)
    ensures
        !(length_within(create.title, TITLE_MIN, TITLE_MAX) && length_within(
            create.description,
            DESCRIPTION_MIN,
            DESCRIPTION_MAX,
        )) ==> {
            let (outcome, after) = serve(create_todo_step(create), table, now);
            &&& outcome matches Err(CustomErrorView::ValidationError { e })
            &&& e.lists(Field::Title) <==> !length_within(create.title, TITLE_MIN, TITLE_MAX)
            &&& e.lists(Field::Description) <==> !length_within(
                create.description,
                DESCRIPTION_MIN,
                DESCRIPTION_MAX,
            )
            &&& reply_of(outcome).status == 400
            &&& after == table
        },
        !(optional_length_within(update.title, TITLE_MIN, TITLE_MAX) && optional_length_within(
            update.description,
            DESCRIPTION_MIN,
            DESCRIPTION_MAX,
        )) ==> {
            let (outcome, after) = serve(update_todo_step(id, update), table, now);
            &&& outcome matches Err(CustomErrorView::ValidationError { e })
            &&& e.lists(Field::Title) <==> !optional_length_within(
                update.title,
                TITLE_MIN,
                TITLE_MAX,
            )
            &&& e.lists(Field::Description) <==> !optional_length_within(
                update.description,
                DESCRIPTION_MIN,
                DESCRIPTION_MAX,
            )
            &&& reply_of(outcome).status == 400
            &&& after == table
        },
{
    crate::dtos::lemma_create_violations_listed(create);
    crate::dtos::lemma_update_violations_listed(update);
}

/// Fetching, updating and deleting a todo that the store does not hold are each
/// answered with 404, and the store stays as it is. (An update is validated first:
/// this is said of payloads that pass.)
pub proof fn lemma_absent_todo_is_not_found(
    table: Table,
    id: usize,
    update: UpdateTodoDtoView,
    now: Timestamp,
)
    requires
        !table.holds_id(id),
        update.validate() is Ok,
    ensures
        serve(find_todo_by_id_step(id), table, now) == (not_found(), table),
        serve(update_todo_step(id, update), table, now) == (not_found(), table),
        serve(delete_todo_by_id_step(id), table, now) == (not_found(), table),
        reply_of(not_found()).status == 404,
{
    reveal_with_fuel(play, 3);
}

/// Creating a todo whose title no row has is answered with 201 and the new row's
/// key; creating another with the same title after that is answered with 409 and
/// changes nothing.
pub proof fn lemma_same_title_conflicts(
    table: Table,
    first: CreateTodoDtoView,
    second: CreateTodoDtoView,
    now: Timestamp,
    later: Timestamp,
)
    requires
        first.validate() is Ok,
        second.validate() is Ok,
        second.title == first.title,
        !table.title_taken(first.title, None),
        1 <= table.next_key <= i32::MAX,
    ensures
        ({
            let (created, after) = serve(create_todo_step(first), table, now);
            let (refused, last) = serve(create_todo_step(second), after, later);
            let key = table.next_key as i32;
            &&& created == report(CustomResponseView::Created { id: key as usize })
            &&& reply_of(created).status == 201
            &&& after.select(key) == Some(
                Todo {
                    id: key,
                    title: first.title,
                    description: first.description,
                    done: first.done,
                    created_at: now,
                    updated_at: now,
                },
            )
            &&& refused == Err::<SuccessView, _>(CustomErrorView::Conflict)
            &&& reply_of(refused).status == 409
            &&& last == after
        }),
{
    reveal_with_fuel(play, 3);
    let (created, after) = serve(create_todo_step(first), table, now);
    let key = table.next_key as i32;
    assert(after.holds(key));
    assert(after.rows[key].title == second.title);
    assert(after.title_taken(second.title, None));
}

/// Updating only `done` of a todo that the store holds is answered with 200 and the
/// key. The row keeps its key, title, description and time of creation, has the new
/// `done`, and counts as updated `now`, which is later than before if the store's
/// rows were all updated before `now`. No other row changes.
pub proof fn lemma_update_of_done_alone(table: Table, id: usize, done: bool, now: Timestamp)
    requires
        table.wf(),
        table.holds_id(id),
    ensures
        ({
            let update = UpdateTodoDtoView { title: None, description: None, done: Some(done) };
            let (outcome, after) = serve(update_todo_step(id, update), table, now);
            let key = id as i32;
            let old = table.rows[key];
            &&& outcome == report(CustomResponseView::Updated { id })
            &&& reply_of(outcome).status == 200
            &&& after.select(key) == Some(Todo { done, updated_at: now, ..old })
            &&& table.before(now) ==> after.rows[key].updated_at.instant()
                > old.updated_at.instant()
            &&& forall|k: i32| k != key ==> (#[trigger] after.holds(k) <==> table.holds(k))
            &&& forall|k: i32| k != key && #[trigger] after.holds(k) ==> after.rows[k] == table.rows[k]
        }),
{
    reveal_with_fuel(play, 3);
}

/// Deleting a todo that the store holds is answered with 200 and the key, and the
/// row is gone while every other row stays; deleting it once more is answered with
/// 404.
pub proof fn lemma_delete_is_not_repeatable(table: Table, id: usize, now: Timestamp)
    requires
        table.wf(),
        table.holds_id(id),
    ensures
        ({
            let (first, after) = serve(delete_todo_by_id_step(id), table, now);
            let (second, last) = serve(delete_todo_by_id_step(id), after, now);
            &&& first == report(CustomResponseView::Deleted { id })
            &&& reply_of(first).status == 200
            &&& !after.holds_id(id)
            &&& forall|k: i32| k != id ==> (#[trigger] after.holds(k) <==> table.holds(k))
            &&& forall|k: i32| #[trigger] after.holds(k) ==> after.rows[k] == table.rows[k]
            &&& second == not_found()
            &&& reply_of(second).status == 404
            &&& last == after
        }),
{
    reveal_with_fuel(play, 3);
}


/// A filter keeps the order of what it leaves: a relation that holds between every
/// earlier and every later element of a sequence holds between every earlier and
/// every later element of the filtered sequence.
proof fn lemma_filter_keeps_order<A>(
    s: Seq<A>,
    keep: spec_fn(A) -> bool,
    precedes: spec_fn(A, A) -> bool,
)
    requires
        forall|i: int, j: int| 0 <= i < j < s.len() ==> precedes(#[trigger] s[i], #[trigger] s[j]),
    ensures
        forall|i: int, j: int|
            0 <= i < j < s.filter(keep).len() ==> precedes(
                #[trigger] s.filter(keep)[i],
                #[trigger] s.filter(keep)[j],
            ),
    decreases s.len(),
{
    reveal_with_fuel(Seq::filter, 2);
    if s.len() > 0 {
        let front = s.drop_last();
        let kept = front.filter(keep);
        lemma_filter_keeps_order(front, keep, precedes);
        if keep(s.last()) {
            assert(s.filter(keep) == kept.push(s.last()));
            assert forall|i: int, j: int| 0 <= i < j < s.filter(keep).len() implies precedes(
                #[trigger] s.filter(keep)[i],
                #[trigger] s.filter(keep)[j],
            ) by {
                if j == kept.len() {
                    assert(kept.contains(kept[i]));
                    front.lemma_filter_contains_rev(keep, kept[i]);
                    let k = choose|k: int| 0 <= k < front.len() && front[k] == kept[i];
                    assert(precedes(s[k], s[s.len() - 1]));
                }
            }
        } else {
            assert(s.filter(keep) == kept);
        }
    }
}

/// Listing todos is answered with 200 and one page of the listing, and the store
/// stays as it is. The listing holds exactly the rows of the store whose title
/// contains the query string (all rows where there is none), the most recently
/// updated first. Page `p` of `n` rows to a page is the rows `n * p`, `n * p + 1`, ...
/// of the listing: `n` of them, or fewer where the listing ends. Where the query
/// names no page, it is the first; where it names no number of rows, ten.
pub proof fn lemma_listing_is_ordered_page(table: Table, query: GetTodosQueryView, now: Timestamp)
    requires
        table.wf(),
    ensures
        ({
            let n = match query.items_per_page {
                Some(n) => n,
                None => 10,
            };
            let p = match query.page {
                Some(p) => p,
                None => 0,
            };
            let all = table.listing(query.query_string);
            let rows = table.page(query.query_string, n, p);
            let (outcome, after) = serve(get_list_of_todos_step(query), table, now);
            &&& outcome == Ok::<_, CustomErrorView>(SuccessView::Todos(rows))
            &&& reply_of(outcome).status == 200
            &&& after == table
            &&& forall|row: Todo| #[trigger]
                all.contains(row) <==> table.select(row.id) == Some(row) && passes(
                    row.title,
                    query.query_string,
                )
            &&& forall|i: int, j: int|
                0 <= i < j < all.len() ==> (#[trigger] all[i]).updated_at.instant()
                    >= (#[trigger] all[j]).updated_at.instant()
            &&& rows.len() <= n
            &&& rows.len() < n ==> n * p + rows.len() >= all.len()
            &&& forall|i: int| 0 <= i < rows.len() ==> #[trigger] rows[i] == all[n * p + i]
        }),
{
    reveal_with_fuel(play, 2);
    let filter = query.query_string;
    let keep = |k: i32| passes(table.rows[k].title, filter);
    let kept = table.recent.filter(keep);
    let all = table.listing(filter);
    assert(all == kept.map_values(|k: i32| table.rows[k]));
    let precedes = |k: i32, l: i32|
        table.rows[k].updated_at.instant() >= table.rows[l].updated_at.instant();
    lemma_filter_keeps_order(table.recent, keep, precedes);
    assert forall|row: Todo| #[trigger]
        all.contains(row) <==> table.select(row.id) == Some(row) && passes(row.title, filter) by {
        if all.contains(row) {
            let i = choose|i: int| 0 <= i < all.len() && all[i] == row;
            let k = kept[i];
            assert(kept.contains(k));
            table.recent.lemma_filter_contains_rev(keep, k);
            table.recent.lemma_filter_pred(keep, i);
            assert(table.holds(k));
        }
        if table.select(row.id) == Some(row) && passes(row.title, filter) {
            let k = row.id;
            assert(table.holds(k));
            assert(table.recent.contains(k));
            let i = choose|i: int| 0 <= i < table.recent.len() && table.recent[i] == k;
            table.recent.lemma_filter_contains(keep, i);
            let j = choose|j: int| 0 <= j < kept.len() && kept[j] == k;
            assert(all[j] == row);
        }
    }
    assert forall|i: int, j: int| 0 <= i < j < all.len() implies (#[trigger] all[i]).updated_at.instant()
        >= (#[trigger] all[j]).updated_at.instant() by {
        assert(precedes(kept[i], kept[j]));
    }
}

/// Whether every key of `ids` is the key of a row of `table` and none occurs twice.
pub open spec fn held_once(table: Table, ids: Seq<usize>) -> bool {
    &&& forall|i: int| 0 <= i < ids.len() ==> table.holds_id(#[trigger] ids[i])
    &&& forall|i: int, j: int| 0 <= i < j < ids.len() ==> #[trigger] ids[i] != #[trigger] ids[j]
}

/// Whether `key` is among `ids`.
pub open spec fn listed(ids: Seq<usize>, key: i32) -> bool {
    exists|i: int| 0 <= i < ids.len() && #[trigger] ids[i] == key
}

/// Whether the keys of `ids` from position `from` on can be deleted one after the
/// other: each is the key of a row when its turn comes.
spec fn deletable(table: Table, ids: Seq<usize>, from: nat) -> bool
    decreases ids.len() - from,
{
    if from >= ids.len() {
        true
    } else {
        table.holds_id(ids[from as int]) && deletable(
            table.delete(ids[from as int] as i32),
            ids,
            from + 1,
        )
    }
}

/// The table when the rows with the keys of `ids` from position `from` on are deleted.
spec fn without(table: Table, ids: Seq<usize>, from: nat) -> Table
    decreases ids.len() - from,
{
    if from >= ids.len() {
        table
    } else {
        without(table.delete(ids[from as int] as i32), ids, from + 1)
    }
}

/// Whether every row is kept under its own key.
spec fn keyed(table: Table) -> bool {
    forall|k: i32| #[trigger] table.holds(k) ==> table.rows[k].id == k
}

/// The rest of a bulk delete, from the key at position `from` on, inside the open
/// transaction: it commits the table without the rows if the keys can be deleted
/// one after the other, and else ends with `NotFound` and nothing committed.
proof fn lemma_bulk_run(
    committed: Table,
    staged: Table,
    ids: Seq<usize>,
    from: nat,
    now: Timestamp,
)
    requires
        keyed(staged),
    ensures
        ({
            let (outcome, db) = play(
                bulk_step(ids, from),
                Database { committed, open: Some(staged) },
                now,
            );
            if deletable(staged, ids, from) {
                &&& outcome == report(CustomResponseView::BulkDeleted { ids })
                &&& db == Database::idle(without(staged, ids, from))
            } else {
                &&& outcome == not_found()
                &&& db.committed == committed
            }
        }),
    decreases ids.len() - from,
{
    reveal_with_fuel(play, 3);
    if from < ids.len() {
        let id = ids[from as int];
        if staged.holds_id(id) {
            let key = id as i32;
            assert(key_of(id) == Some(key));
            assert(staged.rows[key].id == key);
            let next = staged.delete(key);
            assert(keyed(next)) by {
                assert forall|k: i32| #[trigger] next.holds(k) implies next.rows[k].id == k by {
                    assert(staged.holds(k));
                }
            }
            lemma_bulk_run(committed, next, ids, from + 1, now);
        }
    }
}

/// Whether `key` is among `ids` at position `from` or later.
spec fn listed_from(ids: Seq<usize>, from: nat, key: i32) -> bool {
    exists|i: int| from <= i < ids.len() && #[trigger] ids[i] == key
}

/// The keys can be deleted one after the other exactly if each is the key of a row
/// and none occurs twice; what is left then is every row whose key is not among them.
proof fn lemma_deletable(table: Table, ids: Seq<usize>, from: nat)
    ensures
        deletable(table, ids, from) <==> {
            &&& forall|i: int| from <= i < ids.len() ==> table.holds_id(#[trigger] ids[i])
            &&& forall|i: int, j: int|
                from <= i < j < ids.len() ==> #[trigger] ids[i] != #[trigger] ids[j]
        },
        deletable(table, ids, from) ==> forall|k: i32|
            {
                &&& #[trigger] without(table, ids, from).holds(k) <==> table.holds(k)
                    && !listed_from(ids, from, k)
                &&& without(table, ids, from).holds(k) ==> without(table, ids, from).rows[k]
                    == table.rows[k]
            },
    decreases ids.len() - from,
{
    if from < ids.len() {
        let id = ids[from as int];
        if table.holds_id(id) {
            let key = id as i32;
            let next = table.delete(key);
            lemma_deletable(next, ids, from + 1);
            assert forall|x: usize| next.holds_id(x) <==> table.holds_id(x) && x != id by {}
            if deletable(table, ids, from) {
                assert forall|i: int| from <= i < ids.len() implies table.holds_id(
                    #[trigger] ids[i],
                ) by {
                    if i > from {
                        assert(next.holds_id(ids[i]));
                    }
                }
                assert forall|i: int, j: int| from <= i < j < ids.len() implies #[trigger] ids[i]
                    != #[trigger] ids[j] by {
                    if i == from {
                        assert(next.holds_id(ids[j]));
                    }
                }
                assert forall|k: i32|
                    {
                        &&& #[trigger] without(table, ids, from).holds(k) <==> table.holds(k)
                            && !listed_from(ids, from, k)
                        &&& without(table, ids, from).holds(k) ==> without(
                            table,
                            ids,
                            from,
                        ).rows[k] == table.rows[k]
                    } by {
                    assert(without(table, ids, from) == without(next, ids, from + 1));
                    if listed_from(ids, from + 1, k) {
                        let i = choose|i: int| from + 1 <= i < ids.len() && #[trigger] ids[i] == k;
                        assert(from <= i < ids.len() && ids[i] == k);
                    }
                    if listed_from(ids, from, k) && !listed_from(ids, from + 1, k) {
                        let i = choose|i: int| from <= i < ids.len() && #[trigger] ids[i] == k;
                        assert(i == from);
                    }
                    if !listed_from(ids, from, k) {
                        assert(!(ids[from as int] == k));
                    }
                }
            }
            if (forall|i: int| from <= i < ids.len() ==> table.holds_id(#[trigger] ids[i]))
                && (forall|i: int, j: int|
                from <= i < j < ids.len() ==> #[trigger] ids[i] != #[trigger] ids[j]) {
                assert forall|i: int| from + 1 <= i < ids.len() implies next.holds_id(
                    #[trigger] ids[i],
                ) by {
                    assert(table.holds_id(ids[i]));
                    assert(ids[from as int] != ids[i]);
                }
                assert(deletable(next, ids, from + 1));
            }
        } else {
            assert(!deletable(table, ids, from));
        }
    }
}

/// A bulk delete is all or nothing. Where every key listed is the key of a row and
/// none is listed twice, it is answered with 200 and the keys, and exactly the rows
/// listed are gone. In every other case it is answered with 404 and the store stays
/// as it was, whichever rows it had found before the one that is missing.
pub proof fn lemma_bulk_delete_is_all_or_nothing(table: Table, ids: Seq<usize>, now: Timestamp)
    requires
        table.wf(),
    ensures
        ({
            let (outcome, after) = serve(bulk_delete_todos_by_ids_step(ids), table, now);
            if held_once(table, ids) {
                &&& outcome == report(CustomResponseView::BulkDeleted { ids })
                &&& reply_of(outcome).status == 200
                &&& forall|k: i32| #[trigger] after.holds(k) <==> table.holds(k) && !listed(ids, k)
                &&& forall|k: i32| #[trigger] after.holds(k) ==> after.rows[k] == table.rows[k]
            } else {
                &&& outcome == not_found()
                &&& reply_of(outcome).status == 404
                &&& after == table
            }
        }),
{
    reveal_with_fuel(play, 2);
    lemma_bulk_run(table, table, ids, 0, now);
    lemma_deletable(table, ids, 0);
    let (outcome, after) = serve(bulk_delete_todos_by_ids_step(ids), table, now);
    if held_once(table, ids) {
        assert(deletable(table, ids, 0));
        assert(after == without(table, ids, 0));
        assert forall|k: i32| listed(ids, k) == listed_from(ids, 0, k) by {}
    } else {
        assert(!deletable(table, ids, 0));
    }
}


/// What taking one key out of a list of distinct keys leaves: the other keys, each
/// once and in the order they had.
proof fn lemma_filter_key(recent: Seq<i32>, key: i32, precedes: spec_fn(i32, i32) -> bool)
    requires
        recent.no_duplicates(),
        forall|i: int, j: int|
            0 <= i < j < recent.len() ==> precedes(#[trigger] recent[i], #[trigger] recent[j]),
    ensures
        ({
            let rest = recent.filter(other_than(key));
            &&& rest.no_duplicates()
            &&& forall|k: i32| #[trigger] rest.contains(k) <==> recent.contains(k) && k != key
            &&& forall|i: int, j: int|
                0 <= i < j < rest.len() ==> precedes(#[trigger] rest[i], #[trigger] rest[j])
        }),
{
    let keep = other_than(key);
    let rest = recent.filter(keep);
    lemma_filter_keeps_order(recent, keep, precedes);
    lemma_filter_keeps_order(recent, keep, |a: i32, b: i32| a != b);
    assert forall|k: i32| #[trigger] rest.contains(k) <==> recent.contains(k) && k != key by {
        if rest.contains(k) {
            recent.lemma_filter_contains_rev(keep, k);
            let i = choose|i: int| 0 <= i < rest.len() && rest[i] == k;
            recent.lemma_filter_pred(keep, i);
        }
        if recent.contains(k) && k != key {
            let i = choose|i: int| 0 <= i < recent.len() && recent[i] == k;
            recent.lemma_filter_contains(keep, i);
        }
    }
}

/// A well-formed table stays well formed when a row that is no older than any of its
/// rows is written under `key` and `key` is moved to the front of the keys, provided the
/// row carries `key`, no other row has its title, and `key` is below the next key.
proof fn lemma_write_keeps_invariant(table: Table, key: i32, row: Todo, next_key: int)
    requires
        table.wf(),
        row.id == key,
        1 <= key < next_key,
        table.next_key <= next_key,
        row.created_at.instant() <= row.updated_at.instant(),
        forall|k: i32| #[trigger] table.holds(k) && k != key ==> table.rows[k].title != row.title,
        forall|k: i32| #[trigger]
            table.holds(k) ==> table.rows[k].updated_at.instant() <= row.updated_at.instant(),
    ensures
        (Table {
            rows: table.rows.insert(key, row),
            recent: seq![key] + table.recent.filter(other_than(key)),
            next_key,
        }).wf(),
{
    let precedes = |k: i32, l: i32|
        table.rows[k].updated_at.instant() >= table.rows[l].updated_at.instant();
    lemma_filter_key(table.recent, key, precedes);
    let rest = table.recent.filter(other_than(key));
    let after = Table { rows: table.rows.insert(key, row), recent: seq![key] + rest, next_key };
    assert forall|i: int| 0 < i < after.recent.len() implies {
        &&& rest[i - 1] == #[trigger] after.recent[i]
        &&& rest.contains(after.recent[i])
        &&& table.holds(after.recent[i])
        &&& after.recent[i] != key
    } by {
        assert(rest[i - 1] == after.recent[i]);
        assert(rest.contains(rest[i - 1]));
        assert(table.recent.contains(after.recent[i]));
    }
    assert(after.recent[0] == key);
    assert forall|k: i32| #[trigger] after.holds(k) implies after.rows[k].id == k && 1 <= k
        < after.next_key && after.rows[k].created_at.instant()
        <= after.rows[k].updated_at.instant() by {
        if k != key {
            assert(table.holds(k));
        }
    }
    assert forall|k: i32| after.recent.contains(k) <==> #[trigger] after.holds(k) by {
        if after.recent.contains(k) {
            let i = choose|i: int| 0 <= i < after.recent.len() && after.recent[i] == k;
            if i > 0 {
                assert(table.holds(after.recent[i]));
            }
        }
        if after.holds(k) {
            if k != key {
                assert(table.holds(k));
                assert(table.recent.contains(k));
                assert(rest.contains(k));
                let i = choose|i: int| 0 <= i < rest.len() && rest[i] == k;
                assert(after.recent[i + 1] == k);
            }
        }
    }
    assert forall|i: int, j: int| 0 <= i < j < after.recent.len() implies after.rows[
    #[trigger] after.recent[i]].updated_at.instant() >= after.rows[
    #[trigger] after.recent[j]].updated_at.instant() by {
        assert(table.holds(after.recent[j]));
        if i > 0 {
            assert(table.holds(after.recent[i]));
            assert(precedes(rest[i - 1], rest[j - 1]));
        }
    }
    assert forall|k: i32, l: i32|
        #[trigger] after.holds(k) && #[trigger] after.holds(l) && k != l implies after.rows[k].title
        != after.rows[l].title by {
        if k != key {
            assert(table.holds(k));
        }
        if l != key {
            assert(table.holds(l));
        }
    }
    assert(after.recent.no_duplicates()) by {
        assert forall|i: int, j: int|
            0 <= i < after.recent.len() && 0 <= j < after.recent.len() && i
                != j implies after.recent[i] != after.recent[j] by {
            if i > 0 && j > 0 {
                assert(rest[i - 1] != rest[j - 1]);
            }
        }
    }
}

/// The model keeps its invariant: a table that is well formed, and of which no row
/// was updated after `now`, is well formed after any request that is answered at
/// the time `now`, and still no row of it was updated after `now`.
pub proof fn lemma_answer_keeps_invariant(table: Table, request: StoreRequestView, now: Timestamp)
    requires
        table.wf(),
        table.until(now),
    ensures
        table.answer(request, now).1.wf(),
        table.answer(request, now).1.until(now),
{
    let after = table.answer(request, now).1;
    assert forall|k: i32| #[trigger] after.holds(k) implies after.rows[k].updated_at.instant()
        <= now.instant() by {
        match request {
            StoreRequestView::Insert { .. } => {
                if k != table.next_key as i32 || after == table {
                    assert(table.holds(k));
                }
            },
            StoreRequestView::Update { key, .. } => {
                if k != key || after == table {
                    assert(table.holds(k));
                }
            },
            _ => {
                assert(table.holds(k));
            },
        }
    }
    if after != table {
        match request {
            StoreRequestView::Insert { title, description, done } => {
                let key = table.next_key as i32;
                let row = Todo { id: key, title, description, done, created_at: now, updated_at: now };
                assert(!table.holds(key));
                assert(!table.recent.contains(key));
                assert(table.recent.filter(other_than(key)) =~= table.recent) by {
                    lemma_keeps_all(table.recent, other_than(key));
                }
                assert forall|k: i32| #[trigger] table.holds(k) && k != key implies table.rows[k].title
                    != row.title by {
                    assert(!table.title_taken(title, None));
                }
                lemma_write_keeps_invariant(table, key, row, table.next_key + 1);
            },
            StoreRequestView::Update { key, changes } => {
                let row = Todo { updated_at: now, ..changes.applied_to(table.rows[key]) };
                assert(table.holds(key));
                assert forall|k: i32| #[trigger] table.holds(k) && k != key implies table.rows[k].title
                    != row.title by {
                    if changes.title is Some {
                        assert(!table.title_taken(changes.title->0, Some(key)));
                    }
                }
                lemma_write_keeps_invariant(table, key, row, table.next_key);
            },
            StoreRequestView::Delete { key } => {
                let precedes = |k: i32, l: i32|
                    table.rows[k].updated_at.instant() >= table.rows[l].updated_at.instant();
                lemma_filter_key(table.recent, key, precedes);
                let rest = table.recent.filter(other_than(key));
                assert forall|i: int| 0 <= i < rest.len() implies table.holds(#[trigger] rest[i])
                    && rest[i] != key by {
                    assert(rest.contains(rest[i]));
                    assert(table.recent.contains(rest[i]));
                }
                assert forall|k: i32| #[trigger] after.holds(k) implies table.holds(k) by {}
                assert forall|i: int, j: int| 0 <= i < j < after.recent.len() implies after.rows[
                #[trigger] after.recent[i]].updated_at.instant() >= after.rows[
                #[trigger] after.recent[j]].updated_at.instant() by {
                    assert(precedes(rest[i], rest[j]));
                }
                assert forall|k: i32| after.recent.contains(k) <==> #[trigger] after.holds(k) by {
                    if after.holds(k) {
                        assert(table.holds(k));
                    }
                }
                assert forall|k: i32, l: i32|
                    #[trigger] after.holds(k) && #[trigger] after.holds(l) && k
                        != l implies after.rows[k].title != after.rows[l].title by {
                    assert(table.holds(k) && table.holds(l));
                }
            },
            _ => {},
        }
    }
}

/// Deleting rows one after the other keeps the table well formed.
proof fn lemma_without_keeps_invariant(table: Table, ids: Seq<usize>, from: nat, now: Timestamp)
    requires
        table.wf(),
        table.until(now),
    ensures
        without(table, ids, from).wf(),
    decreases ids.len() - from,
{
    if from < ids.len() {
        let key = ids[from as int] as i32;
        lemma_answer_keeps_invariant(table, StoreRequestView::Delete { key }, now);
        lemma_without_keeps_invariant(table.delete(key), ids, from + 1, now);
    }
}

/// Every operation of the service leaves a well-formed store well formed, if no row
/// of the store was updated after the time of the operation.
pub proof fn lemma_operations_keep_invariant(
    table: Table,
    query: GetTodosQueryView,
    id: usize,
    create: CreateTodoDtoView,
    update: UpdateTodoDtoView,
    ids: Seq<usize>,
    now: Timestamp,
)
    requires
        table.wf(),
        table.until(now),
    ensures
        serve(get_list_of_todos_step(query), table, now).1.wf(),
        serve(find_todo_by_id_step(id), table, now).1.wf(),
        serve(create_todo_step(create), table, now).1.wf(),
        serve(update_todo_step(id, update), table, now).1.wf(),
        serve(delete_todo_by_id_step(id), table, now).1.wf(),
        serve(bulk_delete_todos_by_ids_step(ids), table, now).1.wf(),
{
    reveal_with_fuel(play, 3);
    lemma_answer_keeps_invariant(
        table,
        StoreRequestView::Insert {
            title: create.title,
            description: create.description,
            done: create.done,
        },
        now,
    );
    if table.holds_id(id) {
        let key = id as i32;
        assert(table.rows[key].id == key);
        lemma_answer_keeps_invariant(
            table,
            StoreRequestView::Update {
                key,
                changes: TodoPatchView {
                    title: update.title,
                    description: update.description,
                    done: update.done,
                },
            },
            now,
        );
        lemma_answer_keeps_invariant(table, StoreRequestView::Delete { key }, now);
    }
    lemma_bulk_run(table, table, ids, 0, now);
    lemma_without_keeps_invariant(table, ids, 0, now);
}

/// A filter that every element passes leaves the sequence as it is.
proof fn lemma_keeps_all<A>(s: Seq<A>, keep: spec_fn(A) -> bool)
    requires
        forall|i: int| 0 <= i < s.len() ==> keep(#[trigger] s[i]),
    ensures
        s.filter(keep) == s,
    decreases s.len(),
{
    reveal_with_fuel(Seq::filter, 2);
    if s.len() > 0 {
        lemma_keeps_all(s.drop_last(), keep);
        assert(s.drop_last().push(s.last()) =~= s);
    }
}

} // verus!
