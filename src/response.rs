//! The HTTP status that answers each outcome of an operation.

use vstd::prelude::*;
use crate::order_item::TableOrderItemError;
use crate::task::Reply;

verus! {

/// The request succeeded and the body holds the answer.
pub const STATUS_OK: u16 = 200;

/// The order was created.
pub const STATUS_CREATED: u16 = 201;

/// The order item was removed; there is no body.
pub const STATUS_NO_CONTENT: u16 = 204;

/// No such order item.
pub const STATUS_NOT_FOUND: u16 = 404;

/// The service failed.
pub const STATUS_INTERNAL_SERVER_ERROR: u16 = 500;

/// The HTTP status that answers a failed operation: a missing resource for
/// `NotFoundError`, a service failure for the other kinds.
pub fn error_status(error: TableOrderItemError) -> (r: u16)
    ensures
        error == TableOrderItemError::NotFoundError ==> r == STATUS_NOT_FOUND,
        error != TableOrderItemError::NotFoundError ==> r == STATUS_INTERNAL_SERVER_ERROR,
{
    match error {
        TableOrderItemError::NotFoundError => STATUS_NOT_FOUND,
        _ => STATUS_INTERNAL_SERVER_ERROR,
    }
}

/// The HTTP status that answers a successful operation.
pub fn success_status(reply: &Reply) -> (r: u16)
    ensures
        r == match reply {
            Reply::Inserted => STATUS_CREATED,
            Reply::Items(_) | Reply::Item(_) => STATUS_OK,
            Reply::Deleted => STATUS_NO_CONTENT,
        },
{
    match reply {
        Reply::Inserted => STATUS_CREATED,
        Reply::Items(_) | Reply::Item(_) => STATUS_OK,
        Reply::Deleted => STATUS_NO_CONTENT,
    }
}

} // verus!
