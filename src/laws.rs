//! Properties of the operations taken together, proved of the task model and of
//! the store model that it runs against.

use vstd::prelude::*;
use crate::order_item::{OrderItemView, TableOrderItemError};
use crate::prep_time::valid_prep_time;
use crate::statement::insert_param_seq;
use crate::store_model::{
    answer,
    is_item,
    is_not_item,
    joined,
    joined_rows,
    listed,
    new_rows,
    on_table,
    perform,
    StoreState,
    StoredItem,
};
use crate::task::{finished, model_step, ActionView, EventView, OperationView, ReplyView, TaskView};

verus! {

/// No row passes a test that every row fails.
proof fn lemma_filter_none(rows: Seq<StoredItem>, pred: spec_fn(StoredItem) -> bool)
    requires
        forall|i: int| 0 <= i < rows.len() ==> !pred(#[trigger] rows[i]),
    ensures
        rows.filter(pred) == Seq::<StoredItem>::empty(),
    decreases rows.len(),
{
    reveal(Seq::filter);
    if rows.len() > 0 {
        lemma_filter_none(rows.drop_last(), pred);
    }
}

/// Reading an order item that the store does not hold ends in `NotFoundError`,
/// never in `QueryError` or a success, and leaves the store as it was.
pub proof fn lemma_get_missing_item_is_not_found(s: StoreState, table_id: i32, order_item_id: i32)
    requires
        forall|i: int|
            0 <= i < s.items.len() ==> !(#[trigger] s.items[i].table_id == table_id
                && s.items[i].id == order_item_id),
    ensures
        perform(OperationView::GetOrderItem { table_id, order_item_id }, s) == (
            s,
            ActionView::Finish(Err(TableOrderItemError::NotFoundError)),
        ),
{
    lemma_filter_none(s.items, is_item(table_id, order_item_id));
}

/// Deleting an order item that the store does not hold ends in `NotFoundError`
/// and leaves the store as it was: no delete is issued.
pub proof fn lemma_delete_missing_item_is_not_found(s: StoreState, table_id: i32, order_item_id: i32)
    requires
        forall|i: int|
            0 <= i < s.items.len() ==> !(#[trigger] s.items[i].table_id == table_id
                && s.items[i].id == order_item_id),
    ensures
        perform(OperationView::DeleteOrderItem { table_id, order_item_id }, s) == (
            s,
            ActionView::Finish(Err(TableOrderItemError::NotFoundError)),
        ),
{
    lemma_filter_none(s.items, is_item(table_id, order_item_id));
}

/// Listing a table's order items changes nothing, so listing it twice gives
/// the same items both times: those that the list query returns.
pub proof fn lemma_list_is_repeatable(s: StoreState, table_id: i32)
    ensures
        perform(OperationView::ListOrderItems { table_id }, s).0 == s,
        perform(OperationView::ListOrderItems { table_id }, s).1 == ActionView::Finish(
            Ok(ReplyView::Items(listed(s, table_id))),
        ),
        perform(OperationView::ListOrderItems { table_id }, perform(OperationView::ListOrderItems { table_id }, s).0)
            == perform(OperationView::ListOrderItems { table_id }, s),
{
}

/// Every row passes the test, so the filter keeps them all.
proof fn lemma_filter_all(rows: Seq<StoredItem>, pred: spec_fn(StoredItem) -> bool)
    requires
        forall|i: int| 0 <= i < rows.len() ==> pred(#[trigger] rows[i]),
    ensures
        rows.filter(pred) == rows,
    decreases rows.len(),
{
    reveal(Seq::filter);
    if rows.len() > 0 {
        lemma_filter_all(rows.drop_last(), pred);
        assert(rows.drop_last().push(rows.last()) =~= rows);
    }
}

/// With distinct ids, one row at most is a given item of a table.
proof fn lemma_unique_match(rows: Seq<StoredItem>, table_id: i32, order_item_id: i32, i: int)
    requires
        forall|a: int, b: int| 0 <= a < b < rows.len() ==> rows[a].id != rows[b].id,
        0 <= i < rows.len(),
        rows[i].table_id == table_id,
        rows[i].id == order_item_id,
    ensures
        rows.filter(is_item(table_id, order_item_id)).len() == 1,
    decreases rows.len(),
{
    reveal(Seq::filter);
    let rest = rows.drop_last();
    if i == rows.len() - 1 {
        assert forall|k: int| 0 <= k < rest.len() implies !is_item(table_id, order_item_id)(
            #[trigger] rest[k],
        ) by {
            assert(rows[k].id != rows[i].id);
        }
        lemma_filter_none(rest, is_item(table_id, order_item_id));
    } else {
        assert(rows[i].id != rows[rows.len() - 1].id);
        lemma_unique_match(rest, table_id, order_item_id, i);
    }
}

/// The group of values bound to row `j` of the insert statement.
pub open spec fn binds_row(params: Seq<i32>, j: int, table_id: i32, menu_item_id: i32, prep_time_minutes: i32) -> bool {
    &&& params[3 * j] == table_id
    &&& params[3 * j + 1] == menu_item_id
    &&& params[3 * j + 2] == prep_time_minutes
}

/// The values bound to the insert statement come in one group of three for each
/// menu item, in order: the table, the menu item, the preparation time.
pub proof fn lemma_insert_params_bind_rows(table_id: i32, menu_item_ids: Seq<i32>, prep_time_minutes: i32)
    ensures
        insert_param_seq(table_id, menu_item_ids, prep_time_minutes).len() == 3 * menu_item_ids.len(),
        forall|j: int|
            0 <= j < menu_item_ids.len() ==> binds_row(
                insert_param_seq(table_id, menu_item_ids, prep_time_minutes),
                j,
                table_id,
                #[trigger] menu_item_ids[j],
                prep_time_minutes,
            ),
    decreases menu_item_ids.len(),
{
    if menu_item_ids.len() > 0 {
        let rest = menu_item_ids.drop_last();
        let params = insert_param_seq(table_id, menu_item_ids, prep_time_minutes);
        lemma_insert_params_bind_rows(table_id, rest, prep_time_minutes);
        assert forall|j: int| 0 <= j < menu_item_ids.len() implies binds_row(
            params,
            j,
            table_id,
            #[trigger] menu_item_ids[j],
            prep_time_minutes,
        ) by {
            if j < rest.len() {
                assert(rest[j] == menu_item_ids[j]);
                assert(binds_row(insert_param_seq(table_id, rest, prep_time_minutes), j, table_id, rest[j], prep_time_minutes));
            }
        }
    }
}

/// The order items that inserting `menu_item_ids` for a table adds to a store
/// that holds `s`, as the list query shows them.
pub open spec fn inserted_items(
    s: StoreState,
    table_id: i32,
    menu_item_ids: Seq<i32>,
    prep_time_minutes: i32,
) -> Seq<OrderItemView> {
    Seq::new(
        menu_item_ids.len(),
        |j: int|
            OrderItemView {
                id: (s.next_id + j) as i32,
                table_number: s.catalog.table_numbers[table_id],
                menu_item_name: s.catalog.menu_item_names[menu_item_ids[j]],
                prep_time_minutes,
            },
    )
}

/// The store after a successful insert, and the rows it added.
proof fn lemma_insert_adds_rows(
    s: StoreState,
    table_id: i32,
    menu_item_ids: Seq<i32>,
    prep_time_minutes: i32,
)
    requires
        menu_item_ids.len() > 0,
        s.catalog.table_numbers.contains_key(table_id),
        forall|j: int|
            0 <= j < menu_item_ids.len() ==> s.catalog.menu_item_names.contains_key(
                #[trigger] menu_item_ids[j],
            ),
        valid_prep_time(prep_time_minutes),
        menu_item_ids.len() <= usize::MAX / 3,
        s.next_id + menu_item_ids.len() - 1 <= i32::MAX,
    ensures
        ({
            let params = insert_param_seq(table_id, menu_item_ids, prep_time_minutes);
            let rows = new_rows(params, s.next_id);
            let inserted = perform(
                OperationView::InsertOrder { table_id, menu_item_ids, prep_time_minutes },
                s,
            );
            &&& rows.len() == menu_item_ids.len()
            &&& forall|j: int|
                0 <= j < rows.len() ==> #[trigger] rows[j] == (StoredItem {
                    id: (s.next_id + j) as i32,
                    table_id,
                    menu_item_id: menu_item_ids[j],
                    prep_time_minutes,
                })
            &&& inserted.1 == ActionView::Finish(Ok(ReplyView::Inserted))
            &&& inserted.0 == (StoreState {
                items: s.items + rows,
                next_id: s.next_id + menu_item_ids.len(),
                catalog: s.catalog,
            })
        }),
{
    let k = menu_item_ids.len();
    let params = insert_param_seq(table_id, menu_item_ids, prep_time_minutes);
    lemma_insert_params_bind_rows(table_id, menu_item_ids, prep_time_minutes);
    assert(params.len() / 3 == k);
    let rows = new_rows(params, s.next_id);
    assert forall|j: int| 0 <= j < rows.len() implies #[trigger] rows[j] == (StoredItem {
        id: (s.next_id + j) as i32,
        table_id,
        menu_item_id: menu_item_ids[j],
        prep_time_minutes,
    }) by {
        assert(binds_row(params, j, table_id, menu_item_ids[j], prep_time_minutes));
    }
}

/// Inserting `k` menu items for a table, then listing that table, gives what the
/// table held before followed by `k` new items: each on that table, with the
/// referenced menu item's name, and all with the batch's one preparation time,
/// which lies in its range.
pub proof fn lemma_insert_then_list(
    s: StoreState,
    table_id: i32,
    menu_item_ids: Seq<i32>,
    prep_time_minutes: i32,
)
    requires
        s.catalog.table_numbers.contains_key(table_id),
        forall|j: int|
            0 <= j < menu_item_ids.len() ==> s.catalog.menu_item_names.contains_key(
                #[trigger] menu_item_ids[j],
            ),
        valid_prep_time(prep_time_minutes),
        menu_item_ids.len() <= usize::MAX / 3,
        s.next_id + menu_item_ids.len() - 1 <= i32::MAX,
    ensures
        ({
            let inserted = perform(
                OperationView::InsertOrder { table_id, menu_item_ids, prep_time_minutes },
                s,
            );
            let listing = perform(OperationView::ListOrderItems { table_id }, inserted.0);
            &&& inserted.1 == ActionView::Finish(Ok(ReplyView::Inserted))
            &&& listing.1 == ActionView::Finish(
                Ok(
                    ReplyView::Items(
                        listed(s, table_id) + inserted_items(
                            s,
                            table_id,
                            menu_item_ids,
                            prep_time_minutes,
                        ),
                    ),
                ),
            )
        }),
{
    let added = inserted_items(s, table_id, menu_item_ids, prep_time_minutes);
    if menu_item_ids.len() == 0 {
        assert(listed(s, table_id) + added =~= listed(s, table_id));
    } else {
        lemma_insert_adds_rows(s, table_id, menu_item_ids, prep_time_minutes);
        let params = insert_param_seq(table_id, menu_item_ids, prep_time_minutes);
        let rows = new_rows(params, s.next_id);
        let s1 = perform(
            OperationView::InsertOrder { table_id, menu_item_ids, prep_time_minutes },
            s,
        ).0;
        Seq::filter_distributes_over_add(s.items, rows, on_table(table_id));
        assert forall|i: int| 0 <= i < rows.len() implies on_table(table_id)(#[trigger] rows[i]) by {}
        lemma_filter_all(rows, on_table(table_id));
        assert(joined_rows(s.catalog, rows) =~= added);
        assert(listed(s1, table_id) =~= listed(s, table_id) + added);
    }
}

/// Reading an order item that exactly one row of the store matches returns
/// that row, joined.
proof fn lemma_get_single_match(s: StoreState, table_id: i32, order_item_id: i32, row: StoredItem)
    requires
        s.items.filter(is_item(table_id, order_item_id)) == seq![row],
    ensures
        perform(OperationView::GetOrderItem { table_id, order_item_id }, s).1 == ActionView::Finish(
            Ok(ReplyView::Item(joined(s.catalog, row))),
        ),
{
}

/// Reading the order item that an insert of one menu item has just added, by
/// the id the store gave it, returns that item: on the referenced table, with
/// the referenced menu item's name and the batch's preparation time.
pub proof fn lemma_get_inserted_item(
    s: StoreState,
    table_id: i32,
    menu_item_id: i32,
    prep_time_minutes: i32,
)
    requires
        s.well_formed(),
        s.catalog.table_numbers.contains_key(table_id),
        s.catalog.menu_item_names.contains_key(menu_item_id),
        valid_prep_time(prep_time_minutes),
        s.next_id <= i32::MAX,
    ensures
        ({
            let inserted = perform(
                OperationView::InsertOrder {
                    table_id,
                    menu_item_ids: seq![menu_item_id],
                    prep_time_minutes,
                },
                s,
            );
            let fetched = perform(
                OperationView::GetOrderItem { table_id, order_item_id: s.next_id as i32 },
                inserted.0,
            );
            &&& inserted.1 == ActionView::Finish(Ok(ReplyView::Inserted))
            &&& fetched.1 == ActionView::Finish(
                Ok(
                    ReplyView::Item(
                        OrderItemView {
                            id: s.next_id as i32,
                            table_number: s.catalog.table_numbers[table_id],
                            menu_item_name: s.catalog.menu_item_names[menu_item_id],
                            prep_time_minutes,
                        },
                    ),
                ),
            )
        }),
{
    let ids = seq![menu_item_id];
    assert(ids[0] == menu_item_id);
    lemma_insert_adds_rows(s, table_id, ids, prep_time_minutes);
    let params = insert_param_seq(table_id, ids, prep_time_minutes);
    let rows = new_rows(params, s.next_id);
    let id = s.next_id as i32;
    let row = StoredItem { id, table_id, menu_item_id, prep_time_minutes };
    let pred = is_item(table_id, id);
    assert forall|i: int| 0 <= i < s.items.len() implies !pred(#[trigger] s.items[i]) by {}
    lemma_filter_none(s.items, pred);
    assert(rows[0] == row);
    assert forall|i: int| 0 <= i < rows.len() implies pred(#[trigger] rows[i]) by {}
    lemma_filter_all(rows, pred);
    Seq::filter_distributes_over_add(s.items, rows, pred);
    assert(rows =~= seq![row]);
    assert(s.items.filter(pred) + rows =~= seq![row]);
    let s1 = StoreState { items: s.items + rows, next_id: s.next_id + 1, catalog: s.catalog };
    lemma_get_single_match(s1, table_id, id, row);
}

/// Deleting an order item that the store holds succeeds; afterwards the list
/// of its table leaves it out, and reading it gives `NotFoundError`.
pub proof fn lemma_delete_existing_item(s: StoreState, table_id: i32, order_item_id: i32)
    requires
        s.well_formed(),
        exists|i: int|
            0 <= i < s.items.len() && #[trigger] s.items[i].table_id == table_id && s.items[i].id
                == order_item_id,
    ensures
        ({
            let deleted = perform(
                OperationView::DeleteOrderItem { table_id, order_item_id },
                s,
            );
            let listing = perform(OperationView::ListOrderItems { table_id }, deleted.0);
            let fetched = perform(
                OperationView::GetOrderItem { table_id, order_item_id },
                deleted.0,
            );
            &&& deleted.1 == ActionView::Finish(Ok(ReplyView::Deleted))
            &&& listing.1 matches ActionView::Finish(Ok(ReplyView::Items(items))) && forall|k: int|
                0 <= k < items.len() ==> (#[trigger] items[k]).id != order_item_id
            &&& fetched.1 == ActionView::Finish(Err(TableOrderItemError::NotFoundError))
        }),
{
    let i = choose|i: int|
        0 <= i < s.items.len() && #[trigger] s.items[i].table_id == table_id && s.items[i].id
            == order_item_id;
    lemma_unique_match(s.items, table_id, order_item_id, i);
    let remaining = s.items.filter(is_not_item(table_id, order_item_id));
    let s1 = StoreState { items: remaining, next_id: s.next_id, catalog: s.catalog };
    assert(perform(OperationView::DeleteOrderItem { table_id, order_item_id }, s).0 == s1);
    assert forall|j: int| 0 <= j < remaining.len() implies is_not_item(table_id, order_item_id)(
        #[trigger] remaining[j],
    ) by {
        s.items.lemma_filter_pred(is_not_item(table_id, order_item_id), j);
    }
    lemma_get_missing_item_is_not_found(s1, table_id, order_item_id);
    let on_it = remaining.filter(on_table(table_id));
    assert forall|k: int| 0 <= k < listed(s1, table_id).len() implies (#[trigger] listed(
        s1,
        table_id,
    )[k]).id != order_item_id by {
        remaining.lemma_filter_pred(on_table(table_id), k);
        assert(on_it.contains(on_it[k]));
        remaining.lemma_filter_contains_rev(on_table(table_id), on_it[k]);
        let j = choose|j: int| 0 <= j < remaining.len() && remaining[j] == on_it[k];
        assert(is_not_item(table_id, order_item_id)(remaining[j]));
        assert(listed(s1, table_id)[k] == joined(s.catalog, on_it[k]));
    }
}

/// Whatever the store answers to the query of one order item, the result is
/// that item when the query returned exactly one row, and `NotFoundError`
/// otherwise, a failed query included: reading one item never ends in
/// `QueryError`.
pub proof fn lemma_get_answers(table_id: i32, order_item_id: i32, answer: EventView)
    requires
        TaskView::Fetching.accepts(answer),
    ensures
        model_step(
            TaskView::Connecting {
                operation: OperationView::GetOrderItem { table_id, order_item_id },
            },
            EventView::Connected,
        ).0 == TaskView::Fetching,
        answer is StatementFailed ==> model_step(TaskView::Fetching, answer) == finished(
            Err(TableOrderItemError::NotFoundError),
        ),
        answer matches EventView::Rows(rows) ==> model_step(TaskView::Fetching, answer) == if rows.len()
            == 1 {
            finished(Ok(ReplyView::Item(rows[0])))
        } else {
            finished(Err(TableOrderItemError::NotFoundError))
        },
        model_step(TaskView::Fetching, answer).1 != ActionView::Finish(
            Err(TableOrderItemError::QueryError),
        ),
{
}

/// A connection that the pool does not give ends every operation with
/// `PoolError`, before any statement.
pub proof fn lemma_pool_failure_is_reported(operation: OperationView)
    ensures
        model_step(TaskView::Connecting { operation }, EventView::PoolFailed) == finished(
            Err(TableOrderItemError::PoolError),
        ),
{
}

/// Whether `action` is what `task` waits on: a connection while connecting, a
/// query while listing, reading or checking, a write while inserting or
/// deleting, and the result once done.
pub open spec fn awaits(task: TaskView, action: ActionView) -> bool {
    match task {
        TaskView::Connecting { operation } => operation.valid() && action is AcquireConnection,
        TaskView::Listing | TaskView::Fetching => action is FetchItems,
        TaskView::Checking { .. } => action is CountRows,
        TaskView::Inserting | TaskView::Deleting => action is Execute,
        TaskView::Done => action is Finish,
    }
}

/// The store model only gives answers that the task accepts, and each step
/// leads to a task that waits on the action it names: at every exchange of
/// `perform` the executable step may be taken, and does what `model_step`
/// says.
pub proof fn lemma_store_answers_are_accepted(task: TaskView, action: ActionView, s: StoreState)
    requires
        awaits(task, action),
        !(action is Finish),
    ensures
        task.accepts(answer(s, action).1),
        awaits(model_step(task, answer(s, action).1).0, model_step(task, answer(s, action).1).1),
{
}

} // verus!
