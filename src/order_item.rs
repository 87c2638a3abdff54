//! The records that operations return, and their errors.

use vstd::prelude::*;

verus! {

/// One line of a table's order, as the store reports it.
pub struct OrderItem {
    pub id: i32,
    pub table_number: i32,
    pub menu_item_name: String,
    pub prep_time_minutes: i32,
}

/// The mathematical value of an [`OrderItem`].
pub struct OrderItemView {
    pub id: i32,
    pub table_number: i32,
    pub menu_item_name: Seq<char>,
    pub prep_time_minutes: i32,
}

impl View for OrderItem {
    type V = OrderItemView;

    open spec fn view(&self) -> OrderItemView {
        OrderItemView {
            id: self.id,
            table_number: self.table_number,
            menu_item_name: self.menu_item_name@,
            prep_time_minutes: self.prep_time_minutes,
        }
    }
}

impl OrderItem {
    /// An order item with these fields.
    pub fn new(id: i32, table_number: i32, menu_item_name: String, prep_time_minutes: i32) -> (r:
        OrderItem)
        ensures
            r.id == id,
            r.table_number == table_number,
            r.menu_item_name@ == menu_item_name@,
            r.prep_time_minutes == prep_time_minutes,
    {
        OrderItem { id, table_number, menu_item_name, prep_time_minutes }
    }
}

/// The order items of one table, in the order the store returned them.
pub struct OrderItems {
    pub items: Vec<OrderItem>,
}

/// The views of a sequence of order items.
pub open spec fn item_views(items: Seq<OrderItem>) -> Seq<OrderItemView> {
    items.map_values(|item: OrderItem| item@)
}

impl View for OrderItems {
    type V = Seq<OrderItemView>;

    open spec fn view(&self) -> Seq<OrderItemView> {
        item_views(self.items@)
    }
}

/// The body of a request that orders menu items for a table.
pub struct OrderPostParams {
    pub menu_item_ids: Vec<i32>,
}

/// Why an operation on the order items of a table failed.
#[derive(Debug, Clone, Copy, PartialEq, Eq, Structural)]
pub enum TableOrderItemError {
    /// No connection could be had from the pool.
    PoolError,
    /// A statement failed: malformed, refused by a constraint, or lost.
    QueryError,
    /// No order item matches the table and item asked for.
    NotFoundError,
}

} // verus!
