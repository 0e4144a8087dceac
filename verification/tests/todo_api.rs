use todo_api::db::TodoTable;
use todo_api::error::Error;
use todo_api::handler::{handle_request, Body, Request, Response};
use todo_api::todo::Todo;

fn todo(name: &str, ordering: usize, checked: bool) -> Todo {
    Todo { id: None, name: name.to_string(), ordering, checked }
}

#[test]
fn create_assigns_id_and_keeps_fields() {
    let mut table = TodoTable::new();
    let created = table.create_todo(todo("Buy milk", 1, false)).unwrap();
    assert_eq!(created.id, Some(1));
    assert_eq!(created.name, "Buy milk");
    assert_eq!(created.ordering, 1);
    assert!(!created.checked);
}

#[test]
fn listing_is_sorted_by_ordering() {
    let mut table = TodoTable::new();
    table.create_todo(todo("c", 3, false)).unwrap();
    table.create_todo(todo("a", 1, true)).unwrap();
    table.create_todo(todo("b", 2, false)).unwrap();
    let listed = table.fetch_todos();
    assert_eq!(listed.len(), 3);
    assert_eq!(listed[0].name, "a");
    assert_eq!(listed[1].name, "b");
    assert_eq!(listed[2].name, "c");
    assert_eq!(listed[0].ordering, 1);
    assert_eq!(listed[1].ordering, 2);
    assert_eq!(listed[2].ordering, 3);
}

#[test]
fn listing_keeps_rows_with_equal_ordering() {
    let mut table = TodoTable::new();
    table.create_todo(todo("first", 7, false)).unwrap();
    table.create_todo(todo("second", 7, true)).unwrap();
    let listed = table.fetch_todos();
    assert_eq!(listed.len(), 2);
    assert!(listed.iter().any(|t| t.name == "first"));
    assert!(listed.iter().any(|t| t.name == "second"));
    assert_eq!(listed[0].ordering, 7);
    assert_eq!(listed[1].ordering, 7);
}

#[test]
fn empty_table_lists_nothing() {
    let table = TodoTable::new();
    assert!(table.fetch_todos().is_empty());
}

#[test]
fn update_of_missing_id_reports_not_found_and_changes_nothing() {
    let mut table = TodoTable::new();
    table.create_todo(todo("keep", 1, false)).unwrap();
    let r = table.update_todo(99999, todo("changed", 2, true));
    assert_eq!(r.unwrap_err(), Error::NotFound);
    let listed = table.fetch_todos();
    assert_eq!(listed.len(), 1);
    assert_eq!(listed[0].name, "keep");
    assert_eq!(listed[0].ordering, 1);
    assert!(!listed[0].checked);
}

#[test]
fn update_overwrites_all_mutable_fields() {
    let mut table = TodoTable::new();
    let created = table.create_todo(todo("old", 5, false)).unwrap();
    let id = created.id.unwrap();
    let updated = table.update_todo(id, todo("new", 9, true)).unwrap();
    assert_eq!(updated.id, Some(id));
    assert_eq!(updated.name, "new");
    assert_eq!(updated.ordering, 9);
    assert!(updated.checked);
    let listed = table.fetch_todos();
    assert_eq!(listed.len(), 1);
    assert_eq!(listed[0].name, "new");
}

#[test]
fn delete_removes_row_and_second_delete_reports_not_found() {
    let mut table = TodoTable::new();
    let created = table.create_todo(todo("gone soon", 1, false)).unwrap();
    let id = created.id.unwrap();
    assert!(table.delete_todo(id).is_ok());
    assert!(table.fetch_todos().iter().all(|t| t.id != Some(id)));
    assert_eq!(table.delete_todo(id).unwrap_err(), Error::NotFound);
}

#[test]
fn created_record_appears_in_listing_verbatim() {
    let mut table = TodoTable::new();
    let created = table.create_todo(todo("round trip", 4, true)).unwrap();
    let listed = table.fetch_todos();
    assert!(listed.iter().any(|t| t.id == created.id && t.name == created.name
        && t.ordering == created.ordering && t.checked == created.checked));
}

#[test]
fn successive_creates_get_distinct_ids() {
    let mut table = TodoTable::new();
    let a = table.create_todo(todo("a", 1, false)).unwrap().id.unwrap();
    let b = table.create_todo(todo("b", 1, false)).unwrap().id.unwrap();
    let c = table.create_todo(todo("c", 1, false)).unwrap().id.unwrap();
    assert!(a != b && b != c && a != c);
}

#[test]
fn create_ignores_any_id_in_the_body() {
    let mut table = TodoTable::new();
    let body = Todo { id: Some(42), name: "own id".to_string(), ordering: 1, checked: false };
    let created = table.create_todo(body).unwrap();
    assert_eq!(created.id, Some(1));
}

#[test]
fn error_mapping_gives_each_status_and_message() {
    assert_eq!(Error::BodyParse.status_code(), 400);
    assert_eq!(Error::BodyParse.message(), "Invalid Body");
    assert_eq!(Error::NotFound.status_code(), 404);
    assert_eq!(Error::NotFound.message(), "Not Found");
    assert_eq!(Error::RouteNotFound.status_code(), 404);
    assert_eq!(Error::RouteNotFound.message(), "Not Found");
    assert_eq!(Error::MethodNotAllowed.status_code(), 405);
    assert_eq!(Error::MethodNotAllowed.message(), "Method Not Allowed");
    assert_eq!(Error::Pool.status_code(), 500);
    assert_eq!(Error::Pool.message(), "Internal Server Error");
    assert_eq!(Error::Query.status_code(), 500);
    assert_eq!(Error::Query.message(), "Internal Server Error");
}

#[test]
fn health_request_answers_ok() {
    let mut table = TodoTable::new();
    let resp = handle_request(&mut table, Request::Health);
    assert_eq!(resp.status, 200);
    match resp.body {
        Body::Text(t) => assert_eq!(t, "OK"),
        _ => panic!("health body should be static text"),
    }
}

#[test]
fn malformed_body_on_create_gives_400_and_leaves_table_unchanged() {
    let mut table = TodoTable::new();
    table.create_todo(todo("already there", 1, false)).unwrap();
    let resp = handle_request(&mut table, Request::CreateTodo(None));
    assert_eq!(resp.status, 400);
    match resp.body {
        Body::Message(m) => assert_eq!(m, "Invalid Body"),
        _ => panic!("a rejected body should give an error message"),
    }
    let listed = table.fetch_todos();
    assert_eq!(listed.len(), 1);
    assert_eq!(listed[0].name, "already there");
}

#[test]
fn malformed_body_on_update_gives_400() {
    let mut table = TodoTable::new();
    let resp = handle_request(&mut table, Request::UpdateTodo(1, None));
    assert_eq!(resp.status, 400);
}

#[test]
fn handler_runs_full_crud_cycle() {
    let mut table = TodoTable::new();

    let resp = handle_request(&mut table, Request::CreateTodo(Some(todo("task", 2, false))));
    assert_eq!(resp.status, 200);
    let id = match resp.body {
        Body::TodoItem(t) => {
            assert_eq!(t.name, "task");
            t.id.unwrap()
        },
        _ => panic!("create should answer with the created record"),
    };

    let resp = handle_request(&mut table, Request::UpdateTodo(id, Some(todo("task done", 2, true))));
    assert_eq!(resp.status, 200);
    match resp.body {
        Body::TodoItem(t) => {
            assert_eq!(t.id, Some(id));
            assert_eq!(t.name, "task done");
            assert!(t.checked);
        },
        _ => panic!("update should answer with the updated record"),
    }

    let resp = handle_request(&mut table, Request::ListTodos);
    assert_eq!(resp.status, 200);
    match resp.body {
        Body::TodoList(l) => {
            assert_eq!(l.len(), 1);
            assert_eq!(l[0].name, "task done");
        },
        _ => panic!("listing should answer with the array"),
    }

    let resp = handle_request(&mut table, Request::DeleteTodo(id));
    assert_eq!(resp.status, 200);
    assert!(matches!(resp.body, Body::Empty));

    let resp = handle_request(&mut table, Request::DeleteTodo(id));
    assert_eq!(resp.status, 404);
    match resp.body {
        Body::Message(m) => assert_eq!(m, "Not Found"),
        _ => panic!("a missing target should give an error message"),
    }
}

#[test]
fn handler_update_of_missing_id_gives_404() {
    let mut table = TodoTable::new();
    let resp = handle_request(&mut table, Request::UpdateTodo(99999, Some(todo("x", 1, false))));
    assert_eq!(resp.status, 404);
    let Response { status: _, body } = resp;
    match body {
        Body::Message(m) => assert_eq!(m, "Not Found"),
        _ => panic!("a missing target should give an error message"),
    }
}

#[test]
fn statements_name_the_todo_table_and_its_columns() {
    assert_eq!(
        todo_api::db::select_todos_sql(),
        "SELECT id, name, ordering, checked FROM todo ORDER BY ordering ASC"
    );
    assert!(todo_api::db::create_table_sql().starts_with("CREATE TABLE IF NOT EXISTS todo"));
    assert!(todo_api::db::insert_todo_sql().starts_with("INSERT INTO todo"));
    assert!(todo_api::db::update_todo_sql().starts_with("UPDATE todo SET"));
    assert_eq!(todo_api::db::delete_todo_sql(), "DELETE FROM todo WHERE id = $1");
}

#[test]
fn duplicate_copies_every_field() {
    let t = Todo { id: Some(3), name: "copy me".to_string(), ordering: 8, checked: true };
    let c = t.duplicate();
    assert_eq!(c.id, Some(3));
    assert_eq!(c.name, "copy me");
    assert_eq!(c.ordering, 8);
    assert!(c.checked);
}
