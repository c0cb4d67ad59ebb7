use todo_api::handler::{
    create_todo_handler, delete_todo_handler, edit_todo_handler, get_todo_handler,
    health_checker_handler, todos_list_handler, AppState,
};
use todo_api::model::{Timestamp, Todo, UpdateTodoSchema};
use todo_api::response::ErrorKind;
use todo_api::store::TodoStore;

fn body(title: &str, content: &str) -> Todo {
    Todo {
        id: None,
        title: title.to_string(),
        content: content.to_string(),
        completed: true,
        created_at: None,
        updated_at: None,
    }
}

fn at(secs: i64) -> Timestamp {
    Timestamp { secs, nanos: 0 }
}

fn patch(title: Option<&str>, content: Option<&str>, completed: Option<bool>) -> UpdateTodoSchema {
    UpdateTodoSchema {
        title: title.map(|t| t.to_string()),
        content: content.map(|c| c.to_string()),
        completed,
    }
}

#[test]
fn create_sets_fields() {
    let mut s = TodoStore::new();
    let t = s.create_with(&body("Buy milk", "2 litres"), "id-1".to_string(), at(100)).unwrap();
    assert_eq!(t.id, Some("id-1".to_string()));
    assert_eq!(t.title, "Buy milk");
    assert_eq!(t.content, "2 litres");
    assert!(!t.completed);
    assert_eq!(t.created_at, Some(at(100)));
    assert_eq!(t.updated_at, t.created_at);
    assert_eq!(s.len(), 1);
}

#[test]
fn duplicate_title_conflicts() {
    let mut s = TodoStore::new();
    s.create_with(&body("A", "x"), "id-1".to_string(), at(1)).unwrap();
    let e = s.create_with(&body("A", "y"), "id-2".to_string(), at(2)).unwrap_err();
    assert_eq!(e.kind, ErrorKind::Conflict);
    assert_eq!(e.kind.status_code(), 409);
    assert_eq!(e.body.status, "fail");
    assert_eq!(e.body.message, "Todo with title: `A` already exists");
    assert_eq!(s.len(), 1);
    assert_eq!(s.todos[0].content, "x");
}

#[test]
fn title_match_is_case_sensitive() {
    let mut s = TodoStore::new();
    s.create_with(&body("A", "x"), "id-1".to_string(), at(1)).unwrap();
    assert!(s.create_with(&body("a", "x"), "id-2".to_string(), at(1)).is_ok());
    assert_eq!(s.len(), 2);
}

#[test]
fn taken_id_is_internal_fault() {
    let mut s = TodoStore::new();
    s.create_with(&body("A", "x"), "id-1".to_string(), at(1)).unwrap();
    let e = s.create_with(&body("B", "y"), "id-1".to_string(), at(2)).unwrap_err();
    assert_eq!(e.kind, ErrorKind::InternalFault);
    assert_eq!(e.kind.status_code(), 500);
    assert_eq!(s.len(), 1);
}

#[test]
fn get_after_create() {
    let mut s = TodoStore::new();
    let t = s.create_with(&body("A", "x"), "id-1".to_string(), at(5)).unwrap();
    let g = s.get(&"id-1".to_string()).unwrap();
    assert_eq!(g.id, t.id);
    assert_eq!(g.title, t.title);
    assert_eq!(g.content, t.content);
    assert_eq!(g.completed, t.completed);
    assert_eq!(g.created_at, t.created_at);
    assert_eq!(g.updated_at, t.updated_at);
}

#[test]
fn get_missing_is_not_found() {
    let s = TodoStore::new();
    let e = s.get(&"nope".to_string()).unwrap_err();
    assert_eq!(e.kind, ErrorKind::NotFound);
    assert_eq!(e.kind.status_code(), 404);
    assert_eq!(e.body.message, "Todo with ID: `nope` not found");
}

#[test]
fn update_keeps_created_at() {
    let mut s = TodoStore::new();
    s.create_with(&body("A", "x"), "id-1".to_string(), at(10)).unwrap();
    let u = s.update_with(&"id-1".to_string(), &patch(Some("B"), None, Some(true)), at(20)).unwrap();
    assert_eq!(u.created_at, Some(at(10)));
    assert_eq!(u.updated_at, Some(at(20)));
    assert_eq!(u.title, "B");
    assert_eq!(u.content, "x");
    assert!(u.completed);
    assert_eq!(s.get(&"id-1".to_string()).unwrap().title, "B");
}

#[test]
fn update_without_completed_clears_it() {
    let mut s = TodoStore::new();
    s.create_with(&body("A", "x"), "id-1".to_string(), at(1)).unwrap();
    let u = s.update_with(&"id-1".to_string(), &patch(None, None, Some(true)), at(2)).unwrap();
    assert!(u.completed);
    let u = s.update_with(&"id-1".to_string(), &patch(None, Some("new"), None), at(3)).unwrap();
    assert!(!u.completed);
    assert_eq!(u.content, "new");
}

#[test]
fn update_with_empty_title_keeps_it() {
    let mut s = TodoStore::new();
    s.create_with(&body("Buy milk", "x"), "id-1".to_string(), at(1)).unwrap();
    let u = s.update_with(&"id-1".to_string(), &patch(Some(""), Some(""), None), at(2)).unwrap();
    assert_eq!(u.title, "Buy milk");
    assert_eq!(u.content, "x");
}

#[test]
fn update_may_duplicate_title() {
    let mut s = TodoStore::new();
    s.create_with(&body("A", "x"), "id-1".to_string(), at(1)).unwrap();
    s.create_with(&body("B", "y"), "id-2".to_string(), at(1)).unwrap();
    let u = s.update_with(&"id-2".to_string(), &patch(Some("A"), None, None), at(2)).unwrap();
    assert_eq!(u.title, "A");
    assert_eq!(s.todos[0].title, "A");
}

#[test]
fn update_missing_is_not_found() {
    let mut s = TodoStore::new();
    s.create_with(&body("A", "x"), "id-1".to_string(), at(1)).unwrap();
    let e = s.update_with(&"id-9".to_string(), &patch(Some("B"), None, None), at(2)).unwrap_err();
    assert_eq!(e.kind, ErrorKind::NotFound);
    assert_eq!(e.body.status, "fail");
    assert_eq!(s.todos[0].title, "A");
}

#[test]
fn list_second_page_of_five() {
    let mut s = TodoStore::new();
    let titles = ["A", "B", "C", "D", "E", "F", "G", "H", "I", "J", "K", "L"];
    for (k, t) in titles.iter().enumerate() {
        s.create_with(&body(t, ""), format!("id-{}", k), at(k as i64)).unwrap();
    }
    let page = s.list_page(2, 5);
    let got: Vec<String> = page.iter().map(|t| t.title.clone()).collect();
    assert_eq!(got, vec!["F", "G", "H", "I", "J"]);
    let last = s.list_page(3, 5);
    let got: Vec<String> = last.iter().map(|t| t.title.clone()).collect();
    assert_eq!(got, vec!["K", "L"]);
    assert!(s.list_page(4, 5).is_empty());
    assert!(s.list_page(1, 0).is_empty());
    assert!(s.list_page(usize::MAX, usize::MAX).is_empty());
}

#[test]
fn delete_missing_and_existing() {
    let mut s = TodoStore::new();
    s.create_with(&body("A", "x"), "id-1".to_string(), at(1)).unwrap();
    s.create_with(&body("B", "y"), "id-2".to_string(), at(1)).unwrap();
    let e = s.delete(&"id-9".to_string()).unwrap_err();
    assert_eq!(e.kind, ErrorKind::NotFound);
    assert_eq!(s.len(), 2);
    assert!(s.delete(&"id-1".to_string()).is_ok());
    assert_eq!(s.len(), 1);
    assert_eq!(s.get(&"id-1".to_string()).unwrap_err().kind, ErrorKind::NotFound);
    assert_eq!(s.todos[0].title, "B");
}

#[test]
fn distinct_titles_all_created() {
    let mut s = TodoStore::new();
    for k in 0..8 {
        let r = s.create_with(&body(&format!("t{}", k), ""), format!("id-{}", k), at(k));
        assert!(r.is_ok());
    }
    assert_eq!(s.len(), 8);
    for a in 0..8 {
        for b in 0..8 {
            if a != b {
                assert_ne!(s.todos[a].id, s.todos[b].id);
            }
        }
    }
}

#[test]
fn same_title_only_first_created() {
    let mut s = TodoStore::new();
    let mut ok = 0;
    for k in 0..5 {
        match s.create_with(&body("same", ""), format!("id-{}", k), at(k)) {
            Ok(_) => ok += 1,
            Err(e) => assert_eq!(e.kind, ErrorKind::Conflict),
        }
    }
    assert_eq!(ok, 1);
    assert_eq!(s.len(), 1);
}

#[test]
fn health_check_reply() {
    let r = health_checker_handler();
    assert_eq!(r.status, "success");
    assert_eq!(r.message, "Build Simple CRUD API with Rust and Rocket");
}

#[test]
fn handlers_round_trip() {
    let app = AppState::new();
    let c = create_todo_handler(body("Buy milk", "2 litres"), &app).unwrap();
    assert_eq!(c.status, "success");
    let id = c.todo.id.clone().unwrap();
    assert_eq!(id.len(), 36);
    assert!(c.todo.created_at.unwrap().secs > 0);
    assert_eq!(c.todo.created_at, c.todo.updated_at);
    assert!(!c.todo.completed);
    let dup = create_todo_handler(body("Buy milk", "again"), &app).unwrap_err();
    assert_eq!(dup.kind, ErrorKind::Conflict);
    let g = get_todo_handler(id.clone(), &app).unwrap();
    assert_eq!(g.todo.title, "Buy milk");
    let u = edit_todo_handler(id.clone(), patch(Some(""), None, Some(true)), &app).unwrap();
    assert_eq!(u.todo.title, "Buy milk");
    assert!(u.todo.completed);
    assert_eq!(u.todo.created_at, c.todo.created_at);
    let l = todos_list_handler(None, None, &app).unwrap();
    assert_eq!(l.count, 1);
    assert_eq!(l.results[0].id, Some(id.clone()));
    assert!(delete_todo_handler(id.clone(), &app).is_ok());
    assert_eq!(delete_todo_handler(id.clone(), &app).unwrap_err().kind, ErrorKind::NotFound);
    assert_eq!(get_todo_handler(id, &app).unwrap_err().kind, ErrorKind::NotFound);
}

#[test]
fn distinct_handler_ids() {
    let app = AppState::new();
    let a = create_todo_handler(body("A", ""), &app).unwrap();
    let b = create_todo_handler(body("B", ""), &app).unwrap();
    assert_ne!(a.todo.id, b.todo.id);
    assert_eq!(todos_list_handler(Some(1), Some(10), &app).unwrap().count, 2);
}

#[test]
fn list_page_zero_is_bad_request() {
    let app = AppState::new();
    let e = todos_list_handler(Some(0), Some(5), &app).unwrap_err();
    assert_eq!(e.kind, ErrorKind::BadRequest);
    assert_eq!(e.kind.status_code(), 400);
    assert_eq!(e.body.status, "fail");
}

#[test]
fn edit_and_delete_missing_via_handlers() {
    let app = AppState::new();
    let e = edit_todo_handler("x".to_string(), patch(None, None, None), &app).unwrap_err();
    assert_eq!(e.kind, ErrorKind::NotFound);
    assert_eq!(e.body.message, "Todo with ID: `x` not found");
    let e = delete_todo_handler("x".to_string(), &app).unwrap_err();
    assert_eq!(e.kind, ErrorKind::NotFound);
}

#[test]
fn startup_state_is_empty() {
    let app = todo_api::rocket();
    let l = todos_list_handler(None, None, &app).unwrap();
    assert_eq!(l.status, "success");
    assert_eq!(l.count, 0);
    assert!(l.results.is_empty());
}
