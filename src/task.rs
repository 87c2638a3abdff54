//! Each operation on the store as a state machine: the task names the work
//! that it needs done on the pool or a connection, its driver does that work
//! and answers, and the task decides what comes next.

use vstd::prelude::*;
use crate::order_item::{item_views, OrderItem, OrderItemView, OrderItems, TableOrderItemError};
use crate::prep_time::{get_random_prep_time_minutes, valid_prep_time};
use crate::statement::{
    insert_param_seq,
    insert_params,
    insert_sql,
    insert_statement,
    DELETE_ITEM,
    SELECT_ITEM,
    SELECT_ITEMS_FOR_TABLE,
    SELECT_ITEM_EXISTS,
};

verus! {

/// What a caller asks of the order item store.
pub enum Operation {
    /// Adds one order item to the table for each menu item, all with the same
    /// preparation time.
    InsertOrder { table_id: i32, menu_item_ids: Vec<i32>, prep_time_minutes: i32 },
    /// Lists the order items of a table.
    ListOrderItems { table_id: i32 },
    /// Reads one order item of a table.
    GetOrderItem { table_id: i32, order_item_id: i32 },
    /// Removes one order item of a table.
    DeleteOrderItem { table_id: i32, order_item_id: i32 },
}

/// The mathematical value of an [`Operation`].
pub enum OperationView {
    InsertOrder { table_id: i32, menu_item_ids: Seq<i32>, prep_time_minutes: i32 },
    ListOrderItems { table_id: i32 },
    GetOrderItem { table_id: i32, order_item_id: i32 },
    DeleteOrderItem { table_id: i32, order_item_id: i32 },
}

impl View for Operation {
    type V = OperationView;

    open spec fn view(&self) -> OperationView {
        match self {
            Operation::InsertOrder { table_id, menu_item_ids, prep_time_minutes } => {
                OperationView::InsertOrder {
                    table_id: *table_id,
                    menu_item_ids: menu_item_ids@,
                    prep_time_minutes: *prep_time_minutes,
                }
            },
            Operation::ListOrderItems { table_id } => OperationView::ListOrderItems {
                table_id: *table_id,
            },
            Operation::GetOrderItem { table_id, order_item_id } => OperationView::GetOrderItem {
                table_id: *table_id,
                order_item_id: *order_item_id,
            },
            Operation::DeleteOrderItem { table_id, order_item_id } => {
                OperationView::DeleteOrderItem {
                    table_id: *table_id,
                    order_item_id: *order_item_id,
                }
            },
        }
    }
}

impl OperationView {
    /// An insert carries a preparation time in range, and few enough menu
    /// items that its markers can be numbered in a `usize`.
    pub open spec fn valid(self) -> bool {
        match self {
            OperationView::InsertOrder { menu_item_ids, prep_time_minutes, .. } => {
                valid_prep_time(prep_time_minutes) && menu_item_ids.len() <= usize::MAX / 3
            },
            _ => true,
        }
    }
}

impl Operation {
    /// The insert of `menu_item_ids` for a table, with one preparation time
    /// drawn at random for the whole batch.
    pub fn insert_order(table_id: i32, menu_item_ids: Vec<i32>) -> (r: Operation)
        requires
            menu_item_ids@.len() <= usize::MAX / 3,
        ensures
            r@ matches OperationView::InsertOrder { table_id: t, menu_item_ids: ids, prep_time_minutes: p }
                && t == table_id && ids == menu_item_ids@ && valid_prep_time(p),
            r@.valid(),
    {
        let prep_time_minutes = get_random_prep_time_minutes();
        Operation::InsertOrder { table_id, menu_item_ids, prep_time_minutes }
    }
}

/// What an operation produced when it succeeded.
pub enum Reply {
    Inserted,
    Items(OrderItems),
    Item(OrderItem),
    Deleted,
}

/// The mathematical value of a [`Reply`].
pub enum ReplyView {
    Inserted,
    Items(Seq<OrderItemView>),
    Item(OrderItemView),
    Deleted,
}

impl View for Reply {
    type V = ReplyView;

    open spec fn view(&self) -> ReplyView {
        match self {
            Reply::Inserted => ReplyView::Inserted,
            Reply::Items(items) => ReplyView::Items(items@),
            Reply::Item(item) => ReplyView::Item(item@),
            Reply::Deleted => ReplyView::Deleted,
        }
    }
}

/// The mathematical value of an operation's result.
pub open spec fn result_view(r: Result<Reply, TableOrderItemError>) -> Result<ReplyView, TableOrderItemError> {
    match r {
        Ok(reply) => Ok(reply@),
        Err(e) => Err(e),
    }
}

/// What the task asks its driver to do next.
pub enum Action {
    /// Take a connection from the pool.
    AcquireConnection,
    /// Run a query and answer with its rows, read as order items.
    FetchItems { statement: String, params: Vec<i32> },
    /// Run a query and answer with the number of rows it returned.
    CountRows { statement: String, params: Vec<i32> },
    /// Run a statement and answer with the number of rows it changed.
    Execute { statement: String, params: Vec<i32> },
    /// The operation is over, with this result.
    Finish(Result<Reply, TableOrderItemError>),
}

/// The mathematical value of an [`Action`].
pub enum ActionView {
    AcquireConnection,
    FetchItems { statement: Seq<char>, params: Seq<i32> },
    CountRows { statement: Seq<char>, params: Seq<i32> },
    Execute { statement: Seq<char>, params: Seq<i32> },
    Finish(Result<ReplyView, TableOrderItemError>),
}

impl View for Action {
    type V = ActionView;

    open spec fn view(&self) -> ActionView {
        match self {
            Action::AcquireConnection => ActionView::AcquireConnection,
            Action::FetchItems { statement, params } => ActionView::FetchItems {
                statement: statement@,
                params: params@,
            },
            Action::CountRows { statement, params } => ActionView::CountRows {
                statement: statement@,
                params: params@,
            },
            Action::Execute { statement, params } => ActionView::Execute {
                statement: statement@,
                params: params@,
            },
            Action::Finish(result) => ActionView::Finish(result_view(*result)),
        }
    }
}

/// How the driver answers an action.
pub enum Event {
    /// A connection was taken from the pool.
    Connected,
    /// The pool gave no connection.
    PoolFailed,
    /// The statement failed.
    StatementFailed,
    /// The query returned these rows.
    Rows(Vec<OrderItem>),
    /// The query returned, or the statement changed, this many rows.
    RowCount(u64),
}

/// The mathematical value of an [`Event`].
pub enum EventView {
    Connected,
    PoolFailed,
    StatementFailed,
    Rows(Seq<OrderItemView>),
    RowCount(u64),
}

impl View for Event {
    type V = EventView;

    open spec fn view(&self) -> EventView {
        match self {
            Event::Connected => EventView::Connected,
            Event::PoolFailed => EventView::PoolFailed,
            Event::StatementFailed => EventView::StatementFailed,
            Event::Rows(items) => EventView::Rows(item_views(items@)),
            Event::RowCount(n) => EventView::RowCount(*n),
        }
    }
}

/// One operation on the store, between the driver's answers: the decisions of
/// the operation, apart from the work on the pool and the connection.
pub enum OrderItemTask {
    /// Waits for a connection, then runs the operation.
    Connecting { operation: Operation },
    /// Waits for the rows of a table's order items.
    Listing,
    /// Waits for the rows of one order item.
    Fetching,
    /// Waits for the number of rows that match the item to delete.
    Checking { table_id: i32, order_item_id: i32 },
    /// Waits for the insert to complete.
    Inserting,
    /// Waits for the delete to complete.
    Deleting,
    /// The operation is over.
    Done,
}

/// The mathematical value of an [`OrderItemTask`].
pub enum TaskView {
    Connecting { operation: OperationView },
    Listing,
    Fetching,
    Checking { table_id: i32, order_item_id: i32 },
    Inserting,
    Deleting,
    Done,
}

impl View for OrderItemTask {
    type V = TaskView;

    open spec fn view(&self) -> TaskView {
        match self {
            OrderItemTask::Connecting { operation } => TaskView::Connecting {
                operation: operation@,
            },
            OrderItemTask::Listing => TaskView::Listing,
            OrderItemTask::Fetching => TaskView::Fetching,
            OrderItemTask::Checking { table_id, order_item_id } => TaskView::Checking {
                table_id: *table_id,
                order_item_id: *order_item_id,
            },
            OrderItemTask::Inserting => TaskView::Inserting,
            OrderItemTask::Deleting => TaskView::Deleting,
            OrderItemTask::Done => TaskView::Done,
        }
    }
}

impl TaskView {
    /// Whether `event` answers what the task waits for (and the operation
    /// waiting for a connection is valid).
    pub open spec fn accepts(self, event: EventView) -> bool {
        match self {
            TaskView::Connecting { operation } => operation.valid() && (event is Connected
                || event is PoolFailed),
            TaskView::Listing | TaskView::Fetching => event is Rows || event is StatementFailed,
            TaskView::Checking { .. } | TaskView::Inserting | TaskView::Deleting => event is RowCount
                || event is StatementFailed,
            TaskView::Done => false,
        }
    }
}

/// Ends the task with `result`.
pub open spec fn finished(result: Result<ReplyView, TableOrderItemError>) -> (TaskView, ActionView) {
    (TaskView::Done, ActionView::Finish(result))
}

/// What the task does once it has a connection.
///
/// An insert of no menu items has nothing to write: it succeeds at once,
/// without a statement.
pub open spec fn on_connected(operation: OperationView) -> (TaskView, ActionView) {
    match operation {
        OperationView::InsertOrder { table_id, menu_item_ids, prep_time_minutes } => {
            if menu_item_ids.len() == 0 {
                finished(Ok(ReplyView::Inserted))
            } else {
                (
                    TaskView::Inserting,
                    ActionView::Execute {
                        statement: insert_sql(menu_item_ids.len()),
                        params: insert_param_seq(table_id, menu_item_ids, prep_time_minutes),
                    },
                )
            }
        },
        OperationView::ListOrderItems { table_id } => (
            TaskView::Listing,
            ActionView::FetchItems { statement: SELECT_ITEMS_FOR_TABLE@, params: seq![table_id] },
        ),
        OperationView::GetOrderItem { table_id, order_item_id } => (
            TaskView::Fetching,
            ActionView::FetchItems { statement: SELECT_ITEM@, params: seq![table_id, order_item_id] },
        ),
        OperationView::DeleteOrderItem { table_id, order_item_id } => (
            TaskView::Checking { table_id, order_item_id },
            ActionView::CountRows {
                statement: SELECT_ITEM_EXISTS@,
                params: seq![table_id, order_item_id],
            },
        ),
    }
}

/// The task after an accepted `event`, and its next action.
///
/// A pool failure ends any operation with `PoolError`. A failed list, insert or
/// delete statement ends it with `QueryError`. Reading one item gives
/// `NotFoundError` unless the query returned exactly one row, whatever made it
/// fail. A delete first counts the matching rows: unless there is exactly one,
/// it ends with `NotFoundError` and issues no delete; a delete that then
/// changes no row ends with `QueryError`.
pub open spec fn model_step(task: TaskView, event: EventView) -> (TaskView, ActionView) {
    match task {
        TaskView::Connecting { operation } => match event {
            EventView::Connected => on_connected(operation),
            _ => finished(Err(TableOrderItemError::PoolError)),
        },
        TaskView::Listing => match event {
            EventView::Rows(items) => finished(Ok(ReplyView::Items(items))),
            _ => finished(Err(TableOrderItemError::QueryError)),
        },
        TaskView::Fetching => match event {
            EventView::Rows(items) => if items.len() == 1 {
                finished(Ok(ReplyView::Item(items[0])))
            } else {
                finished(Err(TableOrderItemError::NotFoundError))
            },
            _ => finished(Err(TableOrderItemError::NotFoundError)),
        },
        TaskView::Checking { table_id, order_item_id } => match event {
            EventView::RowCount(n) => if n == 1 {
                (
                    TaskView::Deleting,
                    ActionView::Execute {
                        statement: DELETE_ITEM@,
                        params: seq![table_id, order_item_id],
                    },
                )
            } else {
                finished(Err(TableOrderItemError::NotFoundError))
            },
            _ => finished(Err(TableOrderItemError::NotFoundError)),
        },
        TaskView::Inserting => match event {
            EventView::RowCount(_) => finished(Ok(ReplyView::Inserted)),
            _ => finished(Err(TableOrderItemError::QueryError)),
        },
        TaskView::Deleting => match event {
            EventView::RowCount(n) => if n == 0 {
                finished(Err(TableOrderItemError::QueryError))
            } else {
                finished(Ok(ReplyView::Deleted))
            },
            _ => finished(Err(TableOrderItemError::QueryError)),
        },
        TaskView::Done => finished(Err(TableOrderItemError::QueryError)),
    }
}

fn finish(result: Result<Reply, TableOrderItemError>) -> (r: (OrderItemTask, Action))
    ensures
        (r.0@, r.1@) == finished(result_view(result)),
{
    (OrderItemTask::Done, Action::Finish(result))
}

fn two_params(first: i32, second: i32) -> (r: Vec<i32>)
    ensures
        r@ == seq![first, second],
{
    let mut params: Vec<i32> = Vec::new();
    params.push(first);
    params.push(second);
    params
}

fn connected(operation: Operation) -> (r: (OrderItemTask, Action))
    requires
        operation@.valid(),
    ensures
        (r.0@, r.1@) == on_connected(operation@),
{
    match operation {
        Operation::InsertOrder { table_id, menu_item_ids, prep_time_minutes } => {
            if menu_item_ids.len() == 0 {
                finish(Ok(Reply::Inserted))
            } else {
                let statement = insert_statement(menu_item_ids.len());
                let params = insert_params(table_id, &menu_item_ids, prep_time_minutes);
                (OrderItemTask::Inserting, Action::Execute { statement, params })
            }
        },
        Operation::ListOrderItems { table_id } => {
            let mut params: Vec<i32> = Vec::new();
            params.push(table_id);
            let statement = String::from_str(SELECT_ITEMS_FOR_TABLE);
            (OrderItemTask::Listing, Action::FetchItems { statement, params })
        },
        Operation::GetOrderItem { table_id, order_item_id } => {
            let statement = String::from_str(SELECT_ITEM);
            let params = two_params(table_id, order_item_id);
            (OrderItemTask::Fetching, Action::FetchItems { statement, params })
        },
        Operation::DeleteOrderItem { table_id, order_item_id } => {
            let statement = String::from_str(SELECT_ITEM_EXISTS);
            let params = two_params(table_id, order_item_id);
            (
                OrderItemTask::Checking { table_id, order_item_id },
                Action::CountRows { statement, params },
            )
        },
    }
}

impl OrderItemTask {
    /// Begins `operation`: the first action is always to take a connection.
    pub fn start(operation: Operation) -> (r: (OrderItemTask, Action))
        requires
            operation@.valid(),
        ensures
            r.0@ == (TaskView::Connecting { operation: operation@ }),
            r.1@ == ActionView::AcquireConnection,
    {
        (OrderItemTask::Connecting { operation }, Action::AcquireConnection)
    }

    /// Whether [`OrderItemTask::step`] takes `event` now.
    pub fn accepts(&self, event: &Event) -> (r: bool)
        ensures
            r == self@.accepts(event@),
    {
        match self {
            OrderItemTask::Connecting { operation } => {
                let valid = match operation {
                    Operation::InsertOrder { menu_item_ids, prep_time_minutes, .. } => {
                        crate::prep_time::PREP_TIME_MIN <= *prep_time_minutes
                            && *prep_time_minutes <= crate::prep_time::PREP_TIME_MAX
                            && menu_item_ids.len() <= usize::MAX / 3
                    },
                    _ => true,
                };
                valid && match event {
                    Event::Connected | Event::PoolFailed => true,
                    _ => false,
                }
            },
            OrderItemTask::Listing | OrderItemTask::Fetching => match event {
                Event::Rows(_) | Event::StatementFailed => true,
                _ => false,
            },
            OrderItemTask::Checking { .. } | OrderItemTask::Inserting | OrderItemTask::Deleting => {
                match event {
                    Event::RowCount(_) | Event::StatementFailed => true,
                    _ => false,
                }
            },
            OrderItemTask::Done => false,
        }
    }

    /// Takes the driver's answer to the last action and gives the next one.
    pub fn step(self, event: Event) -> (r: (OrderItemTask, Action))
        requires
            self@.accepts(event@),
        ensures
            (r.0@, r.1@) == model_step(self@, event@),
    {
        match self {
            OrderItemTask::Connecting { operation } => match event {
                Event::Connected => connected(operation),
                _ => finish(Err(TableOrderItemError::PoolError)),
            },
            OrderItemTask::Listing => match event {
                Event::Rows(items) => finish(Ok(Reply::Items(OrderItems { items }))),
                _ => finish(Err(TableOrderItemError::QueryError)),
            },
            OrderItemTask::Fetching => match event {
                Event::Rows(items) => {
                    if items.len() == 1 {
                        let mut items = items;
                        let item = items.pop().unwrap();
                        finish(Ok(Reply::Item(item)))
                    } else {
                        finish(Err(TableOrderItemError::NotFoundError))
                    }
                },
                _ => finish(Err(TableOrderItemError::NotFoundError)),
            },
            OrderItemTask::Checking { table_id, order_item_id } => match event {
                Event::RowCount(n) => {
                    if n == 1 {
                        let statement = String::from_str(DELETE_ITEM);
                        let params = two_params(table_id, order_item_id);
                        (OrderItemTask::Deleting, Action::Execute { statement, params })
                    } else {
                        finish(Err(TableOrderItemError::NotFoundError))
                    }
                },
                _ => finish(Err(TableOrderItemError::NotFoundError)),
            },
            OrderItemTask::Inserting => match event {
                Event::RowCount(_) => finish(Ok(Reply::Inserted)),
                _ => finish(Err(TableOrderItemError::QueryError)),
            },
            OrderItemTask::Deleting => match event {
                Event::RowCount(n) => {
                    if n == 0 {
                        finish(Err(TableOrderItemError::QueryError))
                    } else {
                        finish(Ok(Reply::Deleted))
                    }
                },
                _ => finish(Err(TableOrderItemError::QueryError)),
            },
            OrderItemTask::Done => finish(Err(TableOrderItemError::QueryError)),
        }
    }
}

} // verus!
