use vstd::prelude::*;
use vstd::string::*;
use crate::model::Todo;

verus! {

/// A status and a message: the health-check reply and every error body.
#[derive(Debug, Clone)]
pub struct GenericResponse {
    pub status: String,
    pub message: String,
}

/// A reply that carries one record.
#[derive(Debug, Clone)]
pub struct TodoResponse {
    pub status: String,
    pub todo: Todo,
}

/// A reply that carries one page of records and their number.
#[derive(Debug, Clone)]
pub struct TodoListResponse {
    pub status: String,
    pub results: Vec<Todo>,
    pub count: usize,
}

/// What went wrong with a request.
#[derive(Debug, Clone, Copy, PartialEq, Eq, Structural)]
pub enum ErrorKind {
    /// A page number below one.
    BadRequest,
    /// No stored record has the requested id.
    NotFound,
    /// A stored record already has the submitted title.
    Conflict,
    /// The store could not complete the operation.
    InternalFault,
}

impl ErrorKind {
    pub open spec fn spec_status_code(self) -> u16 {
        match self {
            ErrorKind::BadRequest => 400,
            ErrorKind::NotFound => 404,
            ErrorKind::Conflict => 409,
            ErrorKind::InternalFault => 500,
        }
    }

    /// The HTTP status that reports this kind of failure.
    pub fn status_code(&self) -> (r: u16)
        ensures
            r == self.spec_status_code(),
    {
        match self {
            ErrorKind::BadRequest => 400,
            ErrorKind::NotFound => 404,
            ErrorKind::Conflict => 409,
            ErrorKind::InternalFault => 500,
        }
    }
}

/// A failed request: its kind and the body sent back.
#[derive(Debug, Clone)]
pub struct ApiError {
    pub kind: ErrorKind,
    pub body: GenericResponse,
}

pub open spec fn success_status() -> Seq<char> {
    "success"@
}

pub open spec fn fail_status() -> Seq<char> {
    "fail"@
}

pub open spec fn conflict_message(title: Seq<char>) -> Seq<char> {
    "Todo with title: `"@ + title + "` already exists"@
}

pub open spec fn not_found_message(id: Seq<char>) -> Seq<char> {
    "Todo with ID: `"@ + id + "` not found"@
}

/// The body of a failed request.
pub fn fail_body(message: String) -> (r: GenericResponse)
    ensures
        r.status@ == fail_status(),
        r.message@ == message@,
{
    GenericResponse { status: String::from_str("fail"), message }
}

/// The error for a title that is already taken.
pub fn conflict_error(title: &String) -> (r: ApiError)
    ensures
        r.kind == ErrorKind::Conflict,
        r.body.status@ == fail_status(),
        r.body.message@ == conflict_message(title@),
{
    let mut m = String::from_str("Todo with title: `");
    m.append(title.as_str());
    m.append("` already exists");
    ApiError { kind: ErrorKind::Conflict, body: fail_body(m) }
}

/// The error for an id that no stored record has.
pub fn not_found_error(id: &String) -> (r: ApiError)
    ensures
        r.kind == ErrorKind::NotFound,
        r.body.status@ == fail_status(),
        r.body.message@ == not_found_message(id@),
{
    let mut m = String::from_str("Todo with ID: `");
    m.append(id.as_str());
    m.append("` not found");
    ApiError { kind: ErrorKind::NotFound, body: fail_body(m) }
}

/// The error for a page number below one.
pub fn bad_page_error() -> (r: ApiError)
    ensures
        r.kind == ErrorKind::BadRequest,
        r.body.status@ == fail_status(),
        r.body.message@ == "page must be at least 1"@,
{
    ApiError { kind: ErrorKind::BadRequest, body: fail_body(String::from_str("page must be at least 1")) }
}

/// The error for a store that could not complete the operation.
pub fn internal_error() -> (r: ApiError)
    ensures
        r.kind == ErrorKind::InternalFault,
        r.body.status@ == fail_status(),
        r.body.message@ == "internal error"@,
{
    ApiError { kind: ErrorKind::InternalFault, body: fail_body(String::from_str("internal error")) }
}

/// The reply that carries `todo`.
pub fn todo_response(todo: Todo) -> (r: TodoResponse)
    ensures
        r.status@ == success_status(),
        r.todo@ == todo@,
{
    TodoResponse { status: String::from_str("success"), todo }
}

} // verus!
