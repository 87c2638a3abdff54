use table_orders::statement::{DELETE_ITEM, SELECT_ITEM, SELECT_ITEMS_FOR_TABLE, SELECT_ITEM_EXISTS};
use table_orders::{Action, Event, Operation, OrderItem, OrderItemTask, Reply, TableOrderItemError};

fn connected(operation: Operation) -> (OrderItemTask, Action) {
    let (task, action) = OrderItemTask::start(operation);
    assert!(matches!(action, Action::AcquireConnection));
    task.step(Event::Connected)
}

fn finished_with(action: Action) -> Result<Reply, TableOrderItemError> {
    match action {
        Action::Finish(result) => result,
        _ => panic!("the task goes on"),
    }
}

#[test]
fn list_asks_for_the_table_rows() {
    let (_, action) = connected(Operation::ListOrderItems { table_id: 4 });
    match action {
        Action::FetchItems { statement, params } => {
            assert_eq!(statement, SELECT_ITEMS_FOR_TABLE);
            assert_eq!(params, vec![4]);
        }
        _ => panic!("expected a query"),
    }
}

#[test]
fn failed_list_is_query_error() {
    let (task, _) = connected(Operation::ListOrderItems { table_id: 4 });
    let (_, action) = task.step(Event::StatementFailed);
    assert_eq!(finished_with(action).err(), Some(TableOrderItemError::QueryError));
}

#[test]
fn get_asks_for_one_row() {
    let (_, action) = connected(Operation::GetOrderItem { table_id: 4, order_item_id: 8 });
    match action {
        Action::FetchItems { statement, params } => {
            assert_eq!(statement, SELECT_ITEM);
            assert_eq!(params, vec![4, 8]);
        }
        _ => panic!("expected a query"),
    }
}

#[test]
fn failed_get_is_not_found() {
    let (task, _) = connected(Operation::GetOrderItem { table_id: 4, order_item_id: 8 });
    let (task, action) = task.step(Event::StatementFailed);
    assert_eq!(finished_with(action).err(), Some(TableOrderItemError::NotFoundError));
    assert!(!task.accepts(&Event::Connected));
}

#[test]
fn get_with_two_rows_is_not_found() {
    let (task, _) = connected(Operation::GetOrderItem { table_id: 4, order_item_id: 8 });
    let rows = vec![
        OrderItem::new(8, 4, "Fries".to_string(), 6),
        OrderItem::new(8, 4, "Fries".to_string(), 6),
    ];
    let (_, action) = task.step(Event::Rows(rows));
    assert_eq!(finished_with(action).err(), Some(TableOrderItemError::NotFoundError));
}

#[test]
fn get_with_one_row_returns_it() {
    let (task, _) = connected(Operation::GetOrderItem { table_id: 4, order_item_id: 8 });
    let (_, action) = task.step(Event::Rows(vec![OrderItem::new(8, 12, "Fries".to_string(), 6)]));
    match finished_with(action) {
        Ok(Reply::Item(item)) => {
            assert_eq!(item.id, 8);
            assert_eq!(item.table_number, 12);
            assert_eq!(item.menu_item_name, "Fries");
            assert_eq!(item.prep_time_minutes, 6);
        }
        _ => panic!("expected the item"),
    }
}

#[test]
fn delete_checks_before_it_deletes() {
    let (task, action) = connected(Operation::DeleteOrderItem { table_id: 4, order_item_id: 8 });
    match action {
        Action::CountRows { statement, params } => {
            assert_eq!(statement, SELECT_ITEM_EXISTS);
            assert_eq!(params, vec![4, 8]);
        }
        _ => panic!("expected the check"),
    }
    let (task, action) = task.step(Event::RowCount(1));
    match action {
        Action::Execute { statement, params } => {
            assert_eq!(statement, DELETE_ITEM);
            assert_eq!(params, vec![4, 8]);
        }
        _ => panic!("expected the delete"),
    }
    let (_, action) = task.step(Event::RowCount(1));
    assert!(matches!(finished_with(action), Ok(Reply::Deleted)));
}

#[test]
fn delete_of_missing_row_is_not_found() {
    for answer in [Event::RowCount(0), Event::StatementFailed] {
        let (task, _) = connected(Operation::DeleteOrderItem { table_id: 4, order_item_id: 8 });
        let (_, action) = task.step(answer);
        assert_eq!(finished_with(action).err(), Some(TableOrderItemError::NotFoundError));
    }
}

#[test]
fn delete_that_loses_the_race_is_query_error() {
    let (task, _) = connected(Operation::DeleteOrderItem { table_id: 4, order_item_id: 8 });
    let (task, _) = task.step(Event::RowCount(1));
    let (_, action) = task.step(Event::RowCount(0));
    assert_eq!(finished_with(action).err(), Some(TableOrderItemError::QueryError));
}

#[test]
fn failed_delete_statement_is_query_error() {
    let (task, _) = connected(Operation::DeleteOrderItem { table_id: 4, order_item_id: 8 });
    let (task, _) = task.step(Event::RowCount(1));
    let (_, action) = task.step(Event::StatementFailed);
    assert_eq!(finished_with(action).err(), Some(TableOrderItemError::QueryError));
}

#[test]
fn failed_insert_is_query_error() {
    let op = Operation::InsertOrder { table_id: 1, menu_item_ids: vec![5, 6], prep_time_minutes: 7 };
    let (task, action) = connected(op);
    match action {
        Action::Execute { params, .. } => assert_eq!(params, vec![1, 5, 7, 1, 6, 7]),
        _ => panic!("expected the insert"),
    }
    let (_, action) = task.step(Event::StatementFailed);
    assert_eq!(finished_with(action).err(), Some(TableOrderItemError::QueryError));
}

#[test]
fn accepts_only_the_awaited_answer() {
    let (task, _) = OrderItemTask::start(Operation::ListOrderItems { table_id: 1 });
    assert!(task.accepts(&Event::Connected));
    assert!(task.accepts(&Event::PoolFailed));
    assert!(!task.accepts(&Event::RowCount(1)));
    let bad = Operation::InsertOrder { table_id: 1, menu_item_ids: vec![1], prep_time_minutes: 16 };
    let task = OrderItemTask::Connecting { operation: bad };
    assert!(!task.accepts(&Event::Connected));
}
