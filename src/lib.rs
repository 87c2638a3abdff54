//! Order items of restaurant tables: the statements that persist them and the
//! decisions that turn storage outcomes into results.

pub mod config;
pub mod laws;
pub mod order_item;
pub mod prep_time;
pub mod response;
pub mod statement;
pub mod store_model;
pub mod task;

pub use order_item::{OrderItem, OrderItems, OrderPostParams, TableOrderItemError};
pub use prep_time::get_random_prep_time_minutes;
pub use statement::generate_value_placeholders_for_insert_statement;
pub use task::{Action, Event, Operation, OrderItemTask, Reply};
