use vstd::prelude::*;
use vstd::rwlock::{RwLock, RwLockPredicate};
use vstd::string::*;
use crate::model::{Timestamp, Todo, TodoView, UpdateTodoSchema, created, patched};
use crate::response::{
    ApiError, ErrorKind, GenericResponse, TodoListResponse, TodoResponse, bad_page_error,
    conflict_message, not_found_message, success_status, todo_response,
};
use crate::sources::{fresh_id, now};
use crate::store::{TodoStore, find_id, has_id, page_of};

verus! {

/// What the lock guarantees of the collection it guards.
pub struct StorePred;

impl RwLockPredicate<TodoStore> for StorePred {
    open spec fn inv(self, v: TodoStore) -> bool {
        v.wf()
    }
}

/// The state shared by every request: the collection, behind one lock that
/// each handler takes exclusively, once, for the whole of its work.
pub struct AppState {
    pub todo_db: RwLock<TodoStore, StorePred>,
}

impl AppState {
    /// A state holding an empty collection.
    pub fn new() -> (r: AppState)
        ensures
            r.todo_db.pred() == StorePred,
    {
        AppState { todo_db: RwLock::new(TodoStore::new(), Ghost(StorePred)) }
    }
}

pub open spec fn health_message() -> Seq<char> {
    "Build Simple CRUD API with Rust and Rocket"@
}

/// The fixed reply of the health check.
pub fn health_checker_handler() -> (r: GenericResponse)
    ensures
        r.status@ == success_status(),
        r.message@ == health_message(),
{
    GenericResponse {
        message: String::from_str("Build Simple CRUD API with Rust and Rocket"),
        status: String::from_str("success"),
    }
}

/// One page of the collection: page `page` (default 1, counted from one) of
/// `limit` records (default 10). A page of zero is refused with BadRequest.
pub fn todos_list_handler(page: Option<usize>, limit: Option<usize>, data: &AppState) -> (r: Result<
    TodoListResponse,
    ApiError,
>)
    ensures
        r is Err <==> page == Some(0usize),
        match r {
            Ok(res) => res.status@ == success_status() && res.count == res.results@.len()
                && exists|s: TodoStore| #![auto] s.wf() && res.results@.map_values(|t: Todo| t@)
                    == page_of(s@, page.unwrap_or(1) as int, limit.unwrap_or(10) as int),
            Err(e) => e.kind == ErrorKind::BadRequest,
        },
{
    let page = match page {
        Some(p) => p,
        None => 1,
    };
    let limit = match limit {
        Some(l) => l,
        None => 10,
    };
    if page == 0 {
        return Err(bad_page_error());
    }
    let (store, handle) = data.todo_db.acquire_write();
    let todos = store.list_page(page, limit);
    proof {
        assert(store.wf());
    }
    handle.release_write(store);
    let count = todos.len();
    Ok(TodoListResponse { status: String::from_str("success"), results: todos, count })
}

/// Creates a record from `body`'s title and content, with a fresh id, not
/// completed, created and updated now. Fails with Conflict when a stored
/// record has the same title, and with InternalFault when the drawn id is
/// already in use; the collection is then unchanged.
pub fn create_todo_handler(body: Todo, data: &AppState) -> (r: Result<TodoResponse, ApiError>)
    ensures
        match r {
            Ok(res) => res.status@ == success_status() && exists|id: Seq<char>, at: Timestamp|
                id.len() == 36 && at.wf() && res.todo@ == created(body@, id, at),
            Err(e) => (e.kind == ErrorKind::Conflict && e.body.message@ == conflict_message(body@.title))
                || e.kind == ErrorKind::InternalFault,
        },
{
    let (mut store, handle) = data.todo_db.acquire_write();
    let id = fresh_id();
    let at = now();
    let ghost id_v = id@;
    let r = store.create_with(&body, id, at);
    handle.release_write(store);
    match r {
        Ok(todo) => {
            assert(todo@ == created(body@, id_v, at));
            Ok(todo_response(todo))
        },
        Err(e) => Err(e),
    }
}

/// The record whose id is `id`; NotFound when there is none.
pub fn get_todo_handler(id: String, data: &AppState) -> (r: Result<TodoResponse, ApiError>)
    ensures
        match r {
            Ok(res) => res.status@ == success_status() && exists|s: TodoStore|
                #![auto] s.wf() && find_id(s@, id@) == Some(res.todo@),
            Err(e) => e.kind == ErrorKind::NotFound && e.body.message@ == not_found_message(id@),
        },
{
    let (store, handle) = data.todo_db.acquire_write();
    let r = store.get(&id);
    let ghost seen = store;
    handle.release_write(store);
    match r {
        Ok(todo) => {
            assert(find_id(seen@, id@) == Some(todo@));
            Ok(todo_response(todo))
        },
        Err(e) => Err(e),
    }
}

/// Applies the partial patch `body` to the record whose id is `id`, updated
/// now; NotFound when there is none.
pub fn edit_todo_handler(id: String, body: UpdateTodoSchema, data: &AppState) -> (r: Result<
    TodoResponse,
    ApiError,
>)
    ensures
        match r {
            Ok(res) => res.status@ == success_status() && exists|cur: TodoView, at: Timestamp|
                #![auto] cur.id == Some(id@) && at.wf() && res.todo@ == patched(cur, body@, at),
            Err(e) => e.kind == ErrorKind::NotFound && e.body.message@ == not_found_message(id@),
        },
{
    let (mut store, handle) = data.todo_db.acquire_write();
    let at = now();
    let r = store.update_with(&id, &body, at);
    handle.release_write(store);
    match r {
        Ok(todo) => Ok(todo_response(todo)),
        Err(e) => Err(e),
    }
}

/// Removes the record whose id is `id`; NotFound when there is none.
pub fn delete_todo_handler(id: String, data: &AppState) -> (r: Result<(), ApiError>)
    ensures
        match r {
            Ok(_) => exists|before: TodoStore, after: TodoStore|
                #![auto] before.wf() && after.wf() && has_id(before@, id@) && !has_id(after@, id@)
                    && after@.len() == before@.len() - 1,
            Err(e) => e.kind == ErrorKind::NotFound && e.body.message@ == not_found_message(id@),
        },
{
    let (mut store, handle) = data.todo_db.acquire_write();
    let ghost before = store;
    let r = store.delete(&id);
    let ghost after = store;
    handle.release_write(store);
    r
}

} // verus!
