use pratibha_erp::dates::{date_text, read_date, CalDate, DateInput};
use pratibha_erp::library::{due_date, overdue_days};
use pratibha_erp::errors::AppError;
use pratibha_erp::password::{hash_password, verify_password};
use pratibha_erp::todos::{new_todo, require_todo, updated_todo, CreateTodoPayload, TodoEntry, UpdateTodoPayload};

fn some(t: &str) -> Option<String> {
    Some(t.to_string())
}

fn stored_task() -> TodoEntry {
    TodoEntry {
        text: "Order books".to_string(),
        completed: false,
        priority: "high".to_string(),
        due_date: Some(CalDate { year: 2024, month: 9, day: 1 }),
        category: some("library"),
    }
}

fn no_change() -> UpdateTodoPayload {
    UpdateTodoPayload { text: None, completed: None, priority: None, due_date: None, category: None }
}

#[test]
fn new_task_defaults() {
    let p = CreateTodoPayload { text: "  Call vendor ".to_string(), priority: None, due_date: some(""), category: None };
    let t = new_todo(&p).unwrap();
    assert_eq!(t.text, "Call vendor");
    assert_eq!(t.priority, "medium");
    assert!(t.due_date.is_none());
    assert!(!t.completed);
    let p = CreateTodoPayload { text: "x".to_string(), priority: some("low"), due_date: some("2024-10-05"), category: some("ops") };
    let t = new_todo(&p).unwrap();
    let d = t.due_date.unwrap();
    assert_eq!((d.year, d.month, d.day), (2024, 10, 5));
    assert_eq!(t.category, some("ops"));
}

#[test]
fn new_task_bad_due_date() {
    let p = CreateTodoPayload { text: "x".to_string(), priority: None, due_date: some("tomorrow"), category: None };
    match new_todo(&p) {
        Err(AppError::BadRequest(m)) => assert_eq!(m, "Invalid due date format"),
        _ => panic!("expected a bad request"),
    }
}

#[test]
fn task_update_merges_and_clears() {
    let mut u = no_change();
    u.completed = Some(true);
    u.due_date = some("");
    u.category = some("");
    u.text = some(" Order journals ");
    let t = updated_todo(stored_task(), &u).unwrap();
    assert!(t.completed);
    assert!(t.due_date.is_none());
    assert!(t.category.is_none());
    assert_eq!(t.text, "Order journals");
    assert_eq!(t.priority, "high");
    let again = updated_todo(t, &u).unwrap();
    assert!(again.completed);
    assert_eq!(again.text, "Order journals");
}

#[test]
fn empty_task_update_keeps_task() {
    let t = updated_todo(stored_task(), &no_change()).unwrap();
    assert_eq!(t.text, "Order books");
    assert_eq!(t.priority, "high");
    assert_eq!(t.category, some("library"));
    assert!(t.due_date.is_some());
}

#[test]
fn task_update_bad_due_date() {
    let mut u = no_change();
    u.due_date = some("2024-02-30");
    match updated_todo(stored_task(), &u) {
        Err(AppError::BadRequest(m)) => assert_eq!(m, "Invalid due date format"),
        _ => panic!("expected a bad request"),
    }
}

#[test]
fn missing_task() {
    assert!(require_todo(true).is_ok());
    match require_todo(false) {
        Err(AppError::NotFound(m)) => assert_eq!(m, "Todo not found"),
        _ => panic!("expected not found"),
    }
}

#[test]
fn password_round_trip() {
    let h = hash_password("s3cret!").unwrap();
    assert!(h.starts_with("$2b$12$"));
    assert_eq!(h.len(), 60);
    assert!(verify_password("s3cret!", &h).unwrap());
    assert!(!verify_password("S3cret!", &h).unwrap());
}

#[test]
fn unreadable_hash_is_internal_error() {
    match verify_password("x", "not-a-hash") {
        Err(AppError::Internal(_)) => {},
        _ => panic!("expected an internal error"),
    }
}

#[test]
fn date_reading_with_chrono() {
    match read_date(&some("2024-02-29"), false) {
        DateInput::Valid(d) => assert_eq!((d.year, d.month, d.day), (2024, 2, 29)),
        _ => panic!("a leap day is a date"),
    }
    assert!(matches!(read_date(&some("2023-02-29"), false), DateInput::Invalid));
    assert!(matches!(read_date(&some("29/02/2024"), false), DateInput::Invalid));
    assert!(matches!(read_date(&None, true), DateInput::Absent));
    assert!(matches!(read_date(&some(""), true), DateInput::Absent));
    assert!(matches!(read_date(&some(""), false), DateInput::Invalid));
}

#[test]
fn date_texts() {
    assert_eq!(date_text(&CalDate { year: 2024, month: 3, day: 9 }), "2024-03-09");
    assert_eq!(date_text(&CalDate { year: 12, month: 11, day: 30 }), "0012-11-30");
    assert_eq!(date_text(&CalDate { year: -44, month: 3, day: 15 }), "-0044-03-15");
    assert_eq!(date_text(&CalDate { year: 12345, month: 1, day: 1 }), "+12345-01-01");
}

#[test]
fn date_arithmetic() {
    let d = CalDate { year: 2024, month: 2, day: 28 };
    let n = due_date(&d, DateInput::Absent, 2).unwrap();
    assert_eq!((n.year, n.month, n.day), (2024, 3, 1));
    let n = due_date(&d, DateInput::Absent, 14).unwrap();
    assert_eq!((n.year, n.month, n.day), (2024, 3, 13));
    let given = CalDate { year: 2024, month: 5, day: 5 };
    let n = due_date(&d, DateInput::Valid(given), 14).unwrap();
    assert_eq!((n.year, n.month, n.day), (2024, 5, 5));
    assert_eq!(overdue_days(&CalDate { year: 2025, month: 1, day: 1 }, &CalDate { year: 2024, month: 12, day: 31 }), Some(1));
    assert_eq!(overdue_days(&CalDate { year: 2024, month: 2, day: 30 }, &d), None);
}
