//! What the statements of this library expect of the relational store that runs
//! them: how it answers each action of a task, and how its relations change.
//! The laws about sequences of operations are stated against this model.

use vstd::prelude::*;
use crate::order_item::{OrderItemView, TableOrderItemError};
use crate::statement::{insert_sql, DELETE_ITEM, SELECT_ITEM, SELECT_ITEMS_FOR_TABLE, SELECT_ITEM_EXISTS};
use crate::task::{model_step, ActionView, EventView, OperationView, ReplyView, TaskView};

verus! {

/// One row of the `table_order_items` relation.
pub struct StoredItem {
    pub id: i32,
    pub table_id: i32,
    pub menu_item_id: i32,
    pub prep_time_minutes: i32,
}

/// The `tables` and `menu_items` relations, which the order items refer to.
pub struct Catalog {
    pub table_numbers: Map<i32, i32>,
    pub menu_item_names: Map<i32, Seq<char>>,
}

/// The relations as the statements of this library see them.
pub struct StoreState {
    /// The order items, in the order the store lists them.
    pub items: Seq<StoredItem>,
    /// The id that the next inserted order item gets.
    pub next_id: int,
    pub catalog: Catalog,
}

impl StoreState {
    /// Every order item refers to a known table and menu item, and has an id of
    /// its own that was handed out before `next_id`.
    pub open spec fn well_formed(self) -> bool {
        &&& 1 <= self.next_id
        &&& forall|i: int|
            0 <= i < self.items.len() ==> {
                &&& self.catalog.table_numbers.contains_key(#[trigger] self.items[i].table_id)
                &&& self.catalog.menu_item_names.contains_key(self.items[i].menu_item_id)
                &&& 1 <= self.items[i].id < self.next_id
            }
        &&& forall|i: int, j: int|
            0 <= i < j < self.items.len() ==> self.items[i].id != self.items[j].id
    }
}

/// An order item joined with its table's number and its menu item's name.
pub open spec fn joined(catalog: Catalog, row: StoredItem) -> OrderItemView {
    OrderItemView {
        id: row.id,
        table_number: catalog.table_numbers[row.table_id],
        menu_item_name: catalog.menu_item_names[row.menu_item_id],
        prep_time_minutes: row.prep_time_minutes,
    }
}

/// Each row, joined.
pub open spec fn joined_rows(catalog: Catalog, rows: Seq<StoredItem>) -> Seq<OrderItemView> {
    rows.map_values(|row: StoredItem| joined(catalog, row))
}

/// The rows of one table.
pub open spec fn on_table(table_id: i32) -> spec_fn(StoredItem) -> bool {
    |row: StoredItem| row.table_id == table_id
}

/// The row of one order item of one table.
pub open spec fn is_item(table_id: i32, order_item_id: i32) -> spec_fn(StoredItem) -> bool {
    |row: StoredItem| row.table_id == table_id && row.id == order_item_id
}

/// Every row but that of one order item of one table.
pub open spec fn is_not_item(table_id: i32, order_item_id: i32) -> spec_fn(StoredItem) -> bool {
    |row: StoredItem| !(row.table_id == table_id && row.id == order_item_id)
}

/// What the list query returns for a table.
pub open spec fn listed(s: StoreState, table_id: i32) -> Seq<OrderItemView> {
    joined_rows(s.catalog, s.items.filter(on_table(table_id)))
}

/// What the single-item query returns.
pub open spec fn selected(s: StoreState, table_id: i32, order_item_id: i32) -> Seq<OrderItemView> {
    joined_rows(s.catalog, s.items.filter(is_item(table_id, order_item_id)))
}

/// The rows that an insert with these bound values adds, numbered from `first_id`.
pub open spec fn new_rows(params: Seq<i32>, first_id: int) -> Seq<StoredItem> {
    Seq::new(
        params.len() / 3,
        |j: int|
            StoredItem {
                id: (first_id + j) as i32,
                table_id: params[3 * j],
                menu_item_id: params[3 * j + 1],
                prep_time_minutes: params[3 * j + 2],
            },
    )
}

/// Whether the store takes these rows: their tables and menu items exist, and
/// their ids fit the id column.
pub open spec fn insertable(s: StoreState, rows: Seq<StoredItem>) -> bool {
    &&& s.next_id + rows.len() - 1 <= i32::MAX
    &&& forall|j: int|
        0 <= j < rows.len() ==> {
            &&& s.catalog.table_numbers.contains_key(#[trigger] rows[j].table_id)
            &&& s.catalog.menu_item_names.contains_key(rows[j].menu_item_id)
        }
}

/// How a store that holds `s` answers `action`, and what it holds afterwards.
/// A statement it does not know fails and changes nothing.
pub open spec fn answer(s: StoreState, action: ActionView) -> (StoreState, EventView) {
    match action {
        ActionView::AcquireConnection => (s, EventView::Connected),
        ActionView::FetchItems { statement, params } => {
            if params.len() == 1 && statement == SELECT_ITEMS_FOR_TABLE@ {
                (s, EventView::Rows(listed(s, params[0])))
            } else if params.len() == 2 && statement == SELECT_ITEM@ {
                (s, EventView::Rows(selected(s, params[0], params[1])))
            } else {
                (s, EventView::StatementFailed)
            }
        },
        ActionView::CountRows { statement, params } => {
            if params.len() == 2 && statement == SELECT_ITEM_EXISTS@ {
                (s, EventView::RowCount(s.items.filter(is_item(params[0], params[1])).len() as u64))
            } else {
                (s, EventView::StatementFailed)
            }
        },
        ActionView::Execute { statement, params } => {
            if params.len() > 0 && params.len() % 3 == 0 && statement == insert_sql(params.len() / 3) {
                let rows = new_rows(params, s.next_id);
                if insertable(s, rows) {
                    (
                        StoreState {
                            items: s.items + rows,
                            next_id: s.next_id + rows.len(),
                            catalog: s.catalog,
                        },
                        EventView::RowCount(rows.len() as u64),
                    )
                } else {
                    (s, EventView::StatementFailed)
                }
            } else if params.len() == 2 && statement == DELETE_ITEM@ {
                (
                    StoreState {
                        items: s.items.filter(is_not_item(params[0], params[1])),
                        next_id: s.next_id,
                        catalog: s.catalog,
                    },
                    EventView::RowCount(s.items.filter(is_item(params[0], params[1])).len() as u64),
                )
            } else {
                (s, EventView::StatementFailed)
            }
        },
        ActionView::Finish(_) => (s, EventView::StatementFailed),
    }
}

/// One exchange between a task and the store: the store answers the pending
/// action and the task steps; a finished task stays as it is.
pub open spec fn exchange(task: TaskView, action: ActionView, s: StoreState) -> (
    TaskView,
    ActionView,
    StoreState,
) {
    if action is Finish {
        (task, action, s)
    } else {
        let (s2, event) = answer(s, action);
        let (task2, action2) = model_step(task, event);
        (task2, action2, s2)
    }
}

/// Runs `operation` against a store that holds `s`: what the store then holds,
/// and the task's last action. No operation takes more than three exchanges
/// after the connection.
pub open spec fn perform(operation: OperationView, s: StoreState) -> (StoreState, ActionView) {
    let (t1, a1, s1) = exchange(TaskView::Connecting { operation }, ActionView::AcquireConnection, s);
    let (t2, a2, s2) = exchange(t1, a1, s1);
    let (t3, a3, s3) = exchange(t2, a2, s2);
    let (t4, a4, s4) = exchange(t3, a3, s3);
    (s4, a4)
}

} // verus!
