//! Requests on durable notifications.

use crate::access;
use crate::access::{Authorization, Checked};
use vstd::prelude::*;

verus! {

/// Whose notifications a request is about.
#[derive(Clone, Copy, Debug, PartialEq, Eq)]
pub struct NotificationsQuery {
    pub user_id: i32,
}

/// Whose notifications are to be cleared.
#[derive(Clone, Copy, Debug, PartialEq, Eq)]
pub struct ClearNotificationsQuery {
    pub user_id: i32,
    /// Only notifications that were already read go.
    pub read_only: bool,
}

/// What a request does once it was granted.
#[derive(Debug, PartialEq)]
pub enum Operation {
    List { user_id: i32 },
    MarkRead { user_id: i32, id: String },
    Dismiss { user_id: i32, id: String },
    Clear { user_id: i32, read_only: bool },
}

impl Operation {
    /// The user on whose notifications an operation acts.
    pub open spec fn subject(self) -> i32 {
        match self {
            Operation::List { user_id } => user_id,
            Operation::MarkRead { user_id, .. } => user_id,
            Operation::Dismiss { user_id, .. } => user_id,
            Operation::Clear { user_id, .. } => user_id,
        }
    }
}

/// A request: the user to whom access is needed, and what is then done.
#[derive(Debug, PartialEq)]
pub struct ApiCall {
    pub access_to: i32,
    pub operation: Operation,
}

/// Takes the outcome of one check of a request on notifications.
pub fn authorize(from: Authorization, checked: Checked) -> (r: Authorization)
    ensures
        access::moves(from, checked, "You can only manage your own notifications!"@, r),
{
    access::proceed(from, checked, "You can only manage your own notifications!")
}

/// Asks for a user's live notifications.
pub fn list_notifications(query: NotificationsQuery) -> (r: ApiCall)
    ensures
        r.access_to == query.user_id,
        r.operation.subject() == r.access_to,
        r.operation == (Operation::List { user_id: query.user_id }),
{
    ApiCall { access_to: query.user_id, operation: Operation::List { user_id: query.user_id } }
}

/// Asks to mark one notification as read.
pub fn mark_notification_read(id: String, query: NotificationsQuery) -> (r: ApiCall)
    ensures
        r.access_to == query.user_id,
        r.operation.subject() == r.access_to,
        r.operation == (Operation::MarkRead { user_id: query.user_id, id }),
{
    ApiCall {
        access_to: query.user_id,
        operation: Operation::MarkRead { user_id: query.user_id, id },
    }
}

/// Asks to dismiss one notification.
pub fn dismiss_notification(id: String, query: NotificationsQuery) -> (r: ApiCall)
    ensures
        r.access_to == query.user_id,
        r.operation.subject() == r.access_to,
        r.operation == (Operation::Dismiss { user_id: query.user_id, id }),
{
    ApiCall {
        access_to: query.user_id,
        operation: Operation::Dismiss { user_id: query.user_id, id },
    }
}

/// Asks to clear a user's notifications.
pub fn clear_notifications(query: ClearNotificationsQuery) -> (r: ApiCall)
    ensures
        r.access_to == query.user_id,
        r.operation.subject() == r.access_to,
        r.operation == (Operation::Clear {
            user_id: query.user_id,
            read_only: query.read_only,
        }),
{
    ApiCall {
        access_to: query.user_id,
        operation: Operation::Clear { user_id: query.user_id, read_only: query.read_only },
    }
}

/// What is answered to an operation that changed something.
pub fn done() -> (r: serde_json::Value)
    ensures
        crate::json::is_object(r),
        crate::json::members(r).dom() == set!["status"@],
        crate::json::as_text(crate::json::members(r)["status"@]) == Some("ok"@),
{
    let mut object: serde_json::Value = crate::json::empty_object();
    crate::json::put(&mut object, "status", crate::json::text("ok"));
    assert(crate::json::members(object).dom() =~= set!["status"@]);
    object
}

} // verus!
