//! The per-request state machine: one verified step from a routed request
//! and the table to the next table state and the HTTP response. The body of
//! a create or update arrives here as the outcome of the JSON parse at the
//! boundary: `None` stands for a body that was rejected there.

use vstd::prelude::*;

use crate::db::TodoTable;
use crate::error::{spec_message, spec_status, Error};
use crate::router::{route, spec_route, Method, Route};
use crate::todo::{has_id, idx_of, sorted_by_ordering, Todo};

verus! {

/// A routed request, with every value the handler needs already extracted:
/// the id from the path, and the parse outcome of the JSON body.
#[derive(Debug)]
pub enum Request {
    Health,
    ListTodos,
    CreateTodo(Option<Todo>),
    UpdateTodo(u64, Option<Todo>),
    DeleteTodo(u64),
}

/// What a response carries besides its status code.
#[derive(Debug)]
pub enum Body {
    /// The static health-check text.
    Text(String),
    /// The listing, already in response order.
    TodoList(Vec<Todo>),
    /// A single record, as created or updated.
    TodoItem(Todo),
    /// No content, after a delete.
    Empty,
    /// The `message` field of a JSON error body.
    Message(String),
}

/// An HTTP response: status code and body.
#[derive(Debug)]
pub struct Response {
    pub status: u16,
    pub body: Body,
}

/// The single recovery point: any surfaced error becomes its status code
/// and a message body.
pub fn error_response(e: &Error) -> (resp: Response)
    ensures
        resp.status == spec_status(*e),
        resp.body matches Body::Message(m) && m@ == spec_message(*e),
{
    Response { status: e.status_code(), body: Body::Message(e.message()) }
}

/// Runs one request against the table and produces the response:
/// health and listing read, create, update and delete write, a body the
/// boundary rejected is answered with 400 before any table access, and a
/// missing update or delete target with 404, the table untouched.
pub fn handle_request(table: &mut TodoTable, req: Request) -> (resp: Response)
    requires
        old(table).wf(),
    ensures
        final(table).wf(),
        ({
            let rows0 = old(table).spec_rows();
            match req {
                Request::Health => {
                    &&& resp.status == 200
                    &&& resp.body matches Body::Text(t) && t@ == "OK"@
                    &&& *final(table) == *old(table)
                },
                Request::ListTodos => {
                    &&& resp.status == 200
                    &&& resp.body matches Body::TodoList(l) && l@.to_multiset()
                        == rows0.to_multiset() && sorted_by_ordering(l@)
                    &&& *final(table) == *old(table)
                },
                Request::CreateTodo(body) => match body {
                    None => {
                        &&& resp.status == 400
                        &&& resp.body matches Body::Message(m) && m@ == "Invalid Body"@
                        &&& *final(table) == *old(table)
                    },
                    Some(new) => {
                        let created = (Todo {
                            id: Some(old(table).spec_next_id()),
                            name: new.name,
                            ordering: new.ordering,
                            checked: new.checked,
                        });
                        if old(table).spec_next_id() < u64::MAX {
                            &&& resp.status == 200
                            &&& resp.body matches Body::TodoItem(t) && t == created
                            &&& final(table).spec_rows() == rows0.push(created)
                            &&& final(table).spec_next_id() == old(table).spec_next_id() + 1
                        } else {
                            &&& resp.status == 500
                            &&& resp.body matches Body::Message(m) && m@
                                == "Internal Server Error"@
                            &&& *final(table) == *old(table)
                        }
                    },
                },
                Request::UpdateTodo(id, body) => match body {
                    None => {
                        &&& resp.status == 400
                        &&& resp.body matches Body::Message(m) && m@ == "Invalid Body"@
                        &&& *final(table) == *old(table)
                    },
                    Some(new) => {
                        let updated = (Todo {
                            id: Some(id),
                            name: new.name,
                            ordering: new.ordering,
                            checked: new.checked,
                        });
                        if has_id(rows0, id) {
                            &&& resp.status == 200
                            &&& resp.body matches Body::TodoItem(t) && t == updated
                            &&& final(table).spec_rows() == rows0.update(
                                idx_of(rows0, id),
                                updated,
                            )
                            &&& final(table).spec_next_id() == old(table).spec_next_id()
                        } else {
                            &&& resp.status == 404
                            &&& resp.body matches Body::Message(m) && m@ == "Not Found"@
                            &&& *final(table) == *old(table)
                        }
                    },
                },
                Request::DeleteTodo(id) => {
                    if has_id(rows0, id) {
                        &&& resp.status == 200
                        &&& resp.body is Empty
                        &&& final(table).spec_rows() == rows0.remove(idx_of(rows0, id))
                        &&& final(table).spec_next_id() == old(table).spec_next_id()
                    } else {
                        &&& resp.status == 404
                        &&& resp.body matches Body::Message(m) && m@ == "Not Found"@
                        &&& *final(table) == *old(table)
                    }
                },
            }
        }),
{
    match req {
        Request::Health => Response { status: 200, body: Body::Text("OK".to_owned()) },
        Request::ListTodos => Response {
            status: 200,
            body: Body::TodoList(table.fetch_todos()),
        },
        Request::CreateTodo(body) => match body {
            None => error_response(&Error::BodyParse),
            Some(new) => match table.create_todo(new) {
                Ok(created) => Response { status: 200, body: Body::TodoItem(created) },
                Err(e) => error_response(&e),
            },
        },
        Request::UpdateTodo(id, body) => match body {
            None => error_response(&Error::BodyParse),
            Some(new) => match table.update_todo(id, new) {
                Ok(updated) => Response { status: 200, body: Body::TodoItem(updated) },
                Err(e) => error_response(&e),
            },
        },
        Request::DeleteTodo(id) => match table.delete_todo(id) {
            Ok(_) => Response { status: 200, body: Body::Empty },
            Err(e) => error_response(&e),
        },
    }
}

/// One whole request through the route tree: dispatch, handle, and recover.
/// A path that matches no route is answered 404 and a known path under the
/// wrong method 405, the table untouched either way; a matched route is
/// answered as `handle_request` answers it.
pub fn serve_request(
    table: &mut TodoTable,
    method: &Method,
    segments: &Vec<String>,
    body: Option<Todo>,
) -> (resp: Response)
    requires
        old(table).wf(),
    ensures
        final(table).wf(),
        ({
            let rows0 = old(table).spec_rows();
            match spec_route(*method, segments.deep_view()) {
                Route::NotFound => {
                    &&& resp.status == 404
                    &&& resp.body matches Body::Message(m) && m@ == "Not Found"@
                    &&& *final(table) == *old(table)
                },
                Route::MethodNotAllowed => {
                    &&& resp.status == 405
                    &&& resp.body matches Body::Message(m) && m@ == "Method Not Allowed"@
                    &&& *final(table) == *old(table)
                },
                Route::Health => {
                    &&& resp.status == 200
                    &&& resp.body matches Body::Text(t) && t@ == "OK"@
                    &&& *final(table) == *old(table)
                },
                Route::ListTodos => {
                    &&& resp.status == 200
                    &&& resp.body matches Body::TodoList(l) && l@.to_multiset()
                        == rows0.to_multiset() && sorted_by_ordering(l@)
                    &&& *final(table) == *old(table)
                },
                Route::CreateTodo => match body {
                    None => {
                        &&& resp.status == 400
                        &&& resp.body matches Body::Message(m) && m@ == "Invalid Body"@
                        &&& *final(table) == *old(table)
                    },
                    Some(new) => {
                        let created = (Todo {
                            id: Some(old(table).spec_next_id()),
                            name: new.name,
                            ordering: new.ordering,
                            checked: new.checked,
                        });
                        if old(table).spec_next_id() < u64::MAX {
                            &&& resp.status == 200
                            &&& resp.body matches Body::TodoItem(t) && t == created
                            &&& final(table).spec_rows() == rows0.push(created)
                            &&& final(table).spec_next_id() == old(table).spec_next_id() + 1
                        } else {
                            &&& resp.status == 500
                            &&& resp.body matches Body::Message(m) && m@
                                == "Internal Server Error"@
                            &&& *final(table) == *old(table)
                        }
                    },
                },
                Route::UpdateTodo(id) => match body {
                    None => {
                        &&& resp.status == 400
                        &&& resp.body matches Body::Message(m) && m@ == "Invalid Body"@
                        &&& *final(table) == *old(table)
                    },
                    Some(new) => {
                        let updated = (Todo {
                            id: Some(id),
                            name: new.name,
                            ordering: new.ordering,
                            checked: new.checked,
                        });
                        if has_id(rows0, id) {
                            &&& resp.status == 200
                            &&& resp.body matches Body::TodoItem(t) && t == updated
                            &&& final(table).spec_rows() == rows0.update(
                                idx_of(rows0, id),
                                updated,
                            )
                            &&& final(table).spec_next_id() == old(table).spec_next_id()
                        } else {
                            &&& resp.status == 404
                            &&& resp.body matches Body::Message(m) && m@ == "Not Found"@
                            &&& *final(table) == *old(table)
                        }
                    },
                },
                Route::DeleteTodo(id) => {
                    if has_id(rows0, id) {
                        &&& resp.status == 200
                        &&& resp.body is Empty
                        &&& final(table).spec_rows() == rows0.remove(idx_of(rows0, id))
                        &&& final(table).spec_next_id() == old(table).spec_next_id()
                    } else {
                        &&& resp.status == 404
                        &&& resp.body matches Body::Message(m) && m@ == "Not Found"@
                        &&& *final(table) == *old(table)
                    }
                },
            }
        }),
{
    match route(method, segments) {
        Route::NotFound => error_response(&Error::RouteNotFound),
        Route::MethodNotAllowed => error_response(&Error::MethodNotAllowed),
        Route::Health => handle_request(table, Request::Health),
        Route::ListTodos => handle_request(table, Request::ListTodos),
        Route::CreateTodo => handle_request(table, Request::CreateTodo(body)),
        Route::UpdateTodo(id) => handle_request(table, Request::UpdateTodo(id, body)),
        Route::DeleteTodo(id) => handle_request(table, Request::DeleteTodo(id)),
    }
}

} // verus!
