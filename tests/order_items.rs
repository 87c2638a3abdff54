use table_orders::statement::{
    insert_statement, DELETE_ITEM, INSERT_ITEMS_HEAD, SELECT_ITEM, SELECT_ITEMS_FOR_TABLE,
    SELECT_ITEM_EXISTS,
};
use table_orders::{
    Action, Event, Operation, OrderItem, OrderItemTask, OrderItems, Reply, TableOrderItemError,
};

/// A store that answers the task's actions as the relations would: rows of
/// (id, table id, menu item id, prep time), joined with table numbers and
/// menu item names.
struct FakeStore {
    rows: Vec<(i32, i32, i32, i32)>,
    next_id: i32,
    tables: Vec<(i32, i32)>,
    menu: Vec<(i32, &'static str)>,
    pool_down: bool,
    statements: usize,
    writes: usize,
}

impl FakeStore {
    fn seeded() -> FakeStore {
        FakeStore {
            rows: vec![],
            next_id: 1,
            tables: vec![(1, 1), (2, 7)],
            menu: vec![(1, "Big Mac"), (2, "Fries"), (3, "Cola")],
            pool_down: false,
            statements: 0,
            writes: 0,
        }
    }

    fn joined(&self, row: &(i32, i32, i32, i32)) -> OrderItem {
        let table_number = self.tables.iter().find(|t| t.0 == row.1).unwrap().1;
        let name = self.menu.iter().find(|m| m.0 == row.2).unwrap().1;
        OrderItem::new(row.0, table_number, name.to_string(), row.3)
    }

    fn answer(&mut self, action: &Action) -> Event {
        match action {
            Action::AcquireConnection => {
                if self.pool_down {
                    Event::PoolFailed
                } else {
                    Event::Connected
                }
            }
            Action::FetchItems { statement, params } => {
                self.statements += 1;
                if statement == SELECT_ITEMS_FOR_TABLE && params.len() == 1 {
                    let rows: Vec<_> = self.rows.iter().filter(|r| r.1 == params[0]).collect();
                    Event::Rows(rows.iter().map(|r| self.joined(r)).collect())
                } else if statement == SELECT_ITEM && params.len() == 2 {
                    let rows: Vec<_> = self
                        .rows
                        .iter()
                        .filter(|r| r.1 == params[0] && r.0 == params[1])
                        .collect();
                    Event::Rows(rows.iter().map(|r| self.joined(r)).collect())
                } else {
                    Event::StatementFailed
                }
            }
            Action::CountRows { statement, params } => {
                self.statements += 1;
                if statement == SELECT_ITEM_EXISTS && params.len() == 2 {
                    let n = self
                        .rows
                        .iter()
                        .filter(|r| r.1 == params[0] && r.0 == params[1])
                        .count();
                    Event::RowCount(n as u64)
                } else {
                    Event::StatementFailed
                }
            }
            Action::Execute { statement, params } => {
                self.statements += 1;
                self.writes += 1;
                if statement.starts_with(INSERT_ITEMS_HEAD) {
                    if params.len() % 3 != 0 || *statement != insert_statement(params.len() / 3) {
                        return Event::StatementFailed;
                    }
                    let known = params.chunks(3).all(|c| {
                        self.tables.iter().any(|t| t.0 == c[0]) && self.menu.iter().any(|m| m.0 == c[1])
                    });
                    if !known {
                        return Event::StatementFailed;
                    }
                    for c in params.chunks(3) {
                        self.rows.push((self.next_id, c[0], c[1], c[2]));
                        self.next_id += 1;
                    }
                    Event::RowCount((params.len() / 3) as u64)
                } else if statement == DELETE_ITEM && params.len() == 2 {
                    let before = self.rows.len();
                    self.rows.retain(|r| !(r.1 == params[0] && r.0 == params[1]));
                    Event::RowCount((before - self.rows.len()) as u64)
                } else {
                    Event::StatementFailed
                }
            }
            Action::Finish(_) => unreachable!(),
        }
    }

    fn perform(&mut self, operation: Operation) -> Result<Reply, TableOrderItemError> {
        let (mut task, mut action) = OrderItemTask::start(operation);
        loop {
            if let Action::Finish(result) = action {
                return result;
            }
            let event = self.answer(&action);
            assert!(task.accepts(&event));
            let next = task.step(event);
            task = next.0;
            action = next.1;
        }
    }
}

fn insert_table_order_items(
    store: &mut FakeStore,
    menu_item_ids: Vec<i32>,
    table_id: i32,
) -> Result<(), TableOrderItemError> {
    match store.perform(Operation::insert_order(table_id, menu_item_ids)) {
        Ok(Reply::Inserted) => Ok(()),
        Ok(_) => unreachable!(),
        Err(e) => Err(e),
    }
}

fn get_order_items(store: &mut FakeStore, table_id: i32) -> Result<OrderItems, TableOrderItemError> {
    match store.perform(Operation::ListOrderItems { table_id }) {
        Ok(Reply::Items(items)) => Ok(items),
        Ok(_) => unreachable!(),
        Err(e) => Err(e),
    }
}

fn get_order_item(
    store: &mut FakeStore,
    table_id: i32,
    order_item_id: i32,
) -> Result<OrderItem, TableOrderItemError> {
    match store.perform(Operation::GetOrderItem { table_id, order_item_id }) {
        Ok(Reply::Item(item)) => Ok(item),
        Ok(_) => unreachable!(),
        Err(e) => Err(e),
    }
}

fn delete_order_item(
    store: &mut FakeStore,
    table_id: i32,
    order_item_id: i32,
) -> Result<(), TableOrderItemError> {
    match store.perform(Operation::DeleteOrderItem { table_id, order_item_id }) {
        Ok(Reply::Deleted) => Ok(()),
        Ok(_) => unreachable!(),
        Err(e) => Err(e),
    }
}

fn snapshot(items: &OrderItems) -> Vec<(i32, i32, String, i32)> {
    items
        .items
        .iter()
        .map(|i| (i.id, i.table_number, i.menu_item_name.clone(), i.prep_time_minutes))
        .collect()
}

#[test]
fn test_insert_table_order_items() {
    let mut pool = FakeStore::seeded();
    let menu_item_ids = vec![1, 2, 3];
    let table_id = 1;
    insert_table_order_items(&mut pool, menu_item_ids, table_id).unwrap();
}

#[test]
fn test_get_order_item() {
    let mut pool = FakeStore::seeded();
    let menu_item_ids = vec![1];
    let table_id = 1;
    insert_table_order_items(&mut pool, menu_item_ids, table_id).unwrap();
    let order_item = get_order_item(&mut pool, table_id, 1).unwrap();
    assert_eq!(order_item.id, 1);
    assert_eq!(order_item.table_number, 1);
    assert_eq!(order_item.menu_item_name, "Big Mac");
    assert!(order_item.prep_time_minutes >= 5 && order_item.prep_time_minutes <= 15);
}

#[test]
fn test_get_order_items() {
    let mut pool = FakeStore::seeded();
    let menu_item_ids = vec![1, 2, 3];
    let table_id = 1;
    insert_table_order_items(&mut pool, menu_item_ids, table_id).unwrap();
    let OrderItems { items } = get_order_items(&mut pool, table_id).unwrap();
    assert_eq!(items.len(), 3);
}

#[test]
fn test_get_order_item_not_found() {
    let mut pool = FakeStore::seeded();
    let table_id = 1;
    let result = get_order_item(&mut pool, table_id, 1).err().unwrap();
    let expected = TableOrderItemError::NotFoundError;
    assert_eq!(result, expected);
}

#[test]
fn test_delete_order_item() {
    let mut pool = FakeStore::seeded();
    let menu_item_ids = vec![1];
    let table_id = 1;
    insert_table_order_items(&mut pool, menu_item_ids, table_id).unwrap();
    delete_order_item(&mut pool, table_id, 1).unwrap();
    let OrderItems { items } = get_order_items(&mut pool, table_id).unwrap();
    assert_eq!(items.len(), 0);
}

#[test]
fn test_delete_order_item_not_found() {
    let mut pool = FakeStore::seeded();
    let table_id = 1;
    let result = delete_order_item(&mut pool, table_id, 1).err().unwrap();
    let expected = TableOrderItemError::NotFoundError;
    assert_eq!(result, expected);
}

#[test]
fn inserted_items_share_table_and_prep_time() {
    let mut pool = FakeStore::seeded();
    insert_table_order_items(&mut pool, vec![3, 1, 2, 1], 2).unwrap();
    let items = get_order_items(&mut pool, 2).unwrap().items;
    assert_eq!(items.len(), 4);
    let names: Vec<&str> = items.iter().map(|i| i.menu_item_name.as_str()).collect();
    assert_eq!(names, vec!["Cola", "Big Mac", "Fries", "Big Mac"]);
    assert!(items.iter().all(|i| i.table_number == 7));
    let prep = items[0].prep_time_minutes;
    assert!((5..=15).contains(&prep));
    assert!(items.iter().all(|i| i.prep_time_minutes == prep));
    assert_eq!(get_order_items(&mut pool, 1).unwrap().items.len(), 0);
}

#[test]
fn injected_prep_times_at_the_bounds_are_kept() {
    for prep_time_minutes in [5, 15] {
        let mut pool = FakeStore::seeded();
        let op = Operation::InsertOrder { table_id: 1, menu_item_ids: vec![2], prep_time_minutes };
        assert!(matches!(pool.perform(op), Ok(Reply::Inserted)));
        let item = get_order_item(&mut pool, 1, 1).unwrap();
        assert_eq!(item.prep_time_minutes, prep_time_minutes);
        assert_eq!(item.menu_item_name, "Fries");
    }
}

#[test]
fn empty_order_writes_nothing() {
    let mut pool = FakeStore::seeded();
    insert_table_order_items(&mut pool, vec![], 1).unwrap();
    assert_eq!(pool.statements, 0);
    assert!(pool.rows.is_empty());
}

#[test]
fn get_on_another_table_is_not_found() {
    let mut pool = FakeStore::seeded();
    insert_table_order_items(&mut pool, vec![1], 1).unwrap();
    assert_eq!(get_order_item(&mut pool, 2, 1).err(), Some(TableOrderItemError::NotFoundError));
}

#[test]
fn deleted_item_is_gone_from_list_and_get() {
    let mut pool = FakeStore::seeded();
    insert_table_order_items(&mut pool, vec![1, 2], 1).unwrap();
    delete_order_item(&mut pool, 1, 1).unwrap();
    let ids: Vec<i32> = get_order_items(&mut pool, 1).unwrap().items.iter().map(|i| i.id).collect();
    assert_eq!(ids, vec![2]);
    assert_eq!(get_order_item(&mut pool, 1, 1).err(), Some(TableOrderItemError::NotFoundError));
}

#[test]
fn deleting_missing_item_issues_no_write() {
    let mut pool = FakeStore::seeded();
    insert_table_order_items(&mut pool, vec![1], 1).unwrap();
    let writes = pool.writes;
    let rows = pool.rows.clone();
    assert_eq!(delete_order_item(&mut pool, 1, 9).err(), Some(TableOrderItemError::NotFoundError));
    assert_eq!(delete_order_item(&mut pool, 2, 1).err(), Some(TableOrderItemError::NotFoundError));
    assert_eq!(pool.writes, writes);
    assert_eq!(pool.rows, rows);
}

#[test]
fn listing_twice_gives_the_same_items() {
    let mut pool = FakeStore::seeded();
    insert_table_order_items(&mut pool, vec![1, 3], 1).unwrap();
    let first = snapshot(&get_order_items(&mut pool, 1).unwrap());
    let second = snapshot(&get_order_items(&mut pool, 1).unwrap());
    assert_eq!(first, second);
    assert_eq!(first.len(), 2);
}

#[test]
fn empty_list_is_success() {
    let mut pool = FakeStore::seeded();
    assert_eq!(get_order_items(&mut pool, 1).unwrap().items.len(), 0);
}

#[test]
fn pool_failure_is_pool_error() {
    let mut pool = FakeStore::seeded();
    pool.pool_down = true;
    assert_eq!(get_order_items(&mut pool, 1).err(), Some(TableOrderItemError::PoolError));
    assert_eq!(get_order_item(&mut pool, 1, 1).err(), Some(TableOrderItemError::PoolError));
    assert_eq!(delete_order_item(&mut pool, 1, 1).err(), Some(TableOrderItemError::PoolError));
    assert_eq!(
        insert_table_order_items(&mut pool, vec![1], 1).err(),
        Some(TableOrderItemError::PoolError)
    );
}

#[test]
fn unknown_menu_item_is_query_error() {
    let mut pool = FakeStore::seeded();
    assert_eq!(
        insert_table_order_items(&mut pool, vec![1, 99], 1).err(),
        Some(TableOrderItemError::QueryError)
    );
    assert!(pool.rows.is_empty());
}
