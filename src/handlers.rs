use vstd::prelude::*;

use crate::models::{CreateTodo, Todo, UpdateTodo};
use crate::store::{
    after_create, after_delete, after_update, can_assign, has_id, lookup, new_record, revised,
    TodoStore,
};

verus! {

/// HTTP 200: the request succeeded and the body holds the result.
pub const STATUS_OK: u16 = 200;

/// HTTP 204: the request succeeded and there is no body.
pub const STATUS_NO_CONTENT: u16 = 204;

/// HTTP 400: the request body lacked a required field.
pub const STATUS_BAD_REQUEST: u16 = 400;

/// HTTP 404: no record carries the requested identifier.
pub const STATUS_NOT_FOUND: u16 = 404;

/// HTTP 500: the store could not carry out the request.
pub const STATUS_INTERNAL_ERROR: u16 = 500;

/// What a response carries besides its status.
#[derive(Debug, PartialEq, Eq)]
pub enum Body {
    /// No body.
    Empty,
    /// A plain-text message.
    Text(String),
    /// One record.
    One(Todo),
    /// A list of records.
    Many(Vec<Todo>),
}

/// A status code and a body, ready to be encoded for the wire.
#[derive(Debug, PartialEq, Eq)]
pub struct Response {
    pub status: u16,
    pub body: Body,
}

/// The liveness text served at the root path.
pub fn root() -> (r: &'static str)
    ensures
        r@ == "Hello, SPRUG!"@,
{
    "Hello, SPRUG!"
}

/// Lists every record. `store` is `None` when the store's lock could not be
/// acquired; the listing then degrades to an empty one instead of failing.
pub fn get_todos(store: Option<&TodoStore>) -> (r: Response)
    ensures
        r.status == STATUS_OK,
        r.body matches Body::Many(v) && match store {
            Some(s) => v@ == s@,
            None => v@.len() == 0,
        },
{
    match store {
        Some(s) => Response { status: STATUS_OK, body: Body::Many(s.list()) },
        None => Response { status: STATUS_OK, body: Body::Many(Vec::new()) },
    }
}

/// Fetches the record carrying `id`: 200 with the record, or 404 with no body.
pub fn get_todo(store: &TodoStore, id: u64) -> (r: Response)
    requires
        store.wf(),
    ensures
        match lookup(store@, id) {
            Some(t) => r.status == STATUS_OK && r.body == Body::One(t),
            None => r.status == STATUS_NOT_FOUND && r.body is Empty,
        },
{
    match store.get(id) {
        Ok(t) => Response { status: STATUS_OK, body: Body::One(t) },
        Err(_) => Response { status: STATUS_NOT_FOUND, body: Body::Empty },
    }
}

/// Creates a record from a create request: 200 with the new record; 400
/// with a message, and the store unchanged, when the body has no content;
/// 500 with a message when no identifier is left to assign.
pub fn create_todo(store: &mut TodoStore, payload: CreateTodo) -> (r: Response)
    requires
        old(store).wf(),
    ensures
        final(store).wf(),
        payload.content is None ==> {
            &&& r.status == STATUS_BAD_REQUEST
            &&& r.body is Text
            &&& final(store)@ == old(store)@
        },
        payload.content matches Some(c) ==> final(store)@ == after_create(old(store)@, c),
        payload.content matches Some(c) ==> (can_assign(old(store)@) ==> {
            &&& r.status == STATUS_OK
            &&& r.body == Body::One(new_record(old(store)@, c))
        }),
        payload.content is Some && !can_assign(old(store)@) ==> {
            &&& r.status == STATUS_INTERNAL_ERROR
            &&& r.body is Text
        },
{
    match payload.content {
        None => Response {
            status: STATUS_BAD_REQUEST,
            body: Body::Text("missing field `content`".to_owned()),
        },
        Some(c) => match store.create(c) {
            Ok(t) => Response { status: STATUS_OK, body: Body::One(t) },
            Err(_) => Response {
                status: STATUS_INTERNAL_ERROR,
                body: Body::Text("no identifier is left to assign".to_owned()),
            },
        },
    }
}

/// Updates the record carrying `id` from an update request: 200 with the
/// updated record, or 404 with no body and the store unchanged.
pub fn update_todo(store: &mut TodoStore, id: u64, payload: UpdateTodo) -> (r: Response)
    requires
        old(store).wf(),
    ensures
        final(store).wf(),
        final(store)@ == after_update(old(store)@, id, payload.content, payload.completed),
        match lookup(old(store)@, id) {
            Some(t) => r.status == STATUS_OK && r.body == Body::One(
                revised(t, payload.content, payload.completed),
            ),
            None => r.status == STATUS_NOT_FOUND && r.body is Empty,
        },
{
    match store.update(id, payload.content, payload.completed) {
        Ok(t) => Response { status: STATUS_OK, body: Body::One(t) },
        Err(_) => Response { status: STATUS_NOT_FOUND, body: Body::Empty },
    }
}

/// Deletes the record carrying `id`: 204 with no body, or 404 with no body
/// when there is none.
pub fn delete_todo(store: &mut TodoStore, id: u64) -> (r: Response)
    requires
        old(store).wf(),
    ensures
        final(store).wf(),
        final(store)@ == after_delete(old(store)@, id),
        r.status == (if has_id(old(store)@, id) {
            STATUS_NO_CONTENT
        } else {
            STATUS_NOT_FOUND
        }),
        r.body is Empty,
{
    match store.delete(id) {
        Ok(()) => Response { status: STATUS_NO_CONTENT, body: Body::Empty },
        Err(_) => Response { status: STATUS_NOT_FOUND, body: Body::Empty },
    }
}

} // verus!
