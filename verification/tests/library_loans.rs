use pratibha_erp::books::{book_update, new_book_now, AddBookPayload, BookRow, UpdateBookPayload};
use pratibha_erp::dates::CalDate;
use pratibha_erp::errors::AppError;
use pratibha_erp::library::{
    issue_checks, plan_issue, issue_number, books_query, fine_receipt, fresh_fine_receipt, grouped_members_query, issues_query, loan_dates,
    loan_dates_now, member_key, overdue_days, overdue_days_now, stats_query, GetBooksQuery, GetIssuesQuery, MemberKey,
};
use pratibha_erp::sql_text::{
    BOOKS_SQL, ISSUES_HANDLER_SQL, MEMBERS_HANDLER_SQL, STATS_PART_0, STATS_PART_1, STATS_PART_2, STATS_PART_3,
    STATS_PART_4, STATS_PART_5, STATS_PART_6, STATS_PART_7, STATS_PART_8, STATS_PART_9,
};
use pratibha_erp::whatsapp::whatsapp_status;

fn some(t: &str) -> Option<String> {
    Some(t.to_string())
}

fn date(year: i32, month: u32, day: u32) -> CalDate {
    CalDate { year, month, day }
}

fn ymd(d: &CalDate) -> (i32, u32, u32) {
    (d.year, d.month, d.day)
}

fn bad_request(e: AppError) -> String {
    match e {
        AppError::BadRequest(m) => m,
        other => panic!("expected a bad request, got {:?}", other),
    }
}

#[test]
fn catalogue_query_with_type_and_search() {
    let q = GetBooksQuery { book_type: some("magazine"), search: some("war"), page: None, limit: None };
    let r = books_query(&q);
    let expected = format!(
        "{} AND b.type = $1 AND (b.title ILIKE $2 OR b.author ILIKE $2 OR b.acc_no ILIKE $2 OR b.sl_no $2) ORDER BY b.created_at DESC LIMIT $3 OFFSET $4",
        BOOKS_SQL
    );
    assert_eq!(r.sql, expected);
    assert_eq!(r.binders, vec!["magazine".to_string(), "%war%".to_string()]);

    let plain = books_query(&GetBooksQuery { book_type: None, search: None, page: Some(2), limit: Some(10) });
    assert_eq!(plain.sql, format!("{} ORDER BY b.created_at DESC LIMIT $1 OFFSET $2", BOOKS_SQL));
    assert!(plain.binders.is_empty());
}

#[test]
fn grouped_member_query_search() {
    let r = grouped_members_query(&some(" ram "));
    let expected = format!(
        "{} WHERE m.name ILIKE $1 OR m.student_id ILIKE $1 OR m.phone ILIKE $1 GROUP BY m.id ORDER BY m.created_at DESC LIMIT $2 OFFSET $3",
        MEMBERS_HANDLER_SQL
    );
    assert_eq!(r.sql, expected);
    assert_eq!(r.binders, vec!["% ram %".to_string()]);
}

#[test]
fn issue_query_filters_and_bad_dates() {
    let q = GetIssuesQuery {
        status: some("overdue"),
        start_date: some("2024-01-05"),
        end_date: None,
        page: None,
        limit: None,
    };
    let r = issues_query(&q).expect("a query");
    let expected = format!(
        "{} WHERE bi.status = $1 AND bi.issue_date >= $2 ORDER BY bi.created_at DESC LIMIT $3 OFFSET $4",
        ISSUES_HANDLER_SQL
    );
    assert_eq!(r.sql, expected);
    assert_eq!(r.binders, vec!["overdue".to_string(), "2024-01-05".to_string()]);

    let all = GetIssuesQuery { status: some("all"), start_date: None, end_date: some("2024-02-01"), page: None, limit: None };
    let r = issues_query(&all).expect("a query");
    assert_eq!(
        r.sql,
        format!("{} WHERE bi.issue_date <= $1 ORDER BY bi.created_at DESC LIMIT $2 OFFSET $3", ISSUES_HANDLER_SQL)
    );
    assert_eq!(r.binders, vec!["2024-02-01".to_string()]);

    let bad = GetIssuesQuery { status: None, start_date: some("05/01/2024"), end_date: some("nope"), page: None, limit: None };
    assert_eq!(bad_request(issues_query(&bad).unwrap_err()), "Invalid startDate format");
    let bad_end = GetIssuesQuery { status: None, start_date: None, end_date: some(""), page: None, limit: None };
    assert_eq!(bad_request(issues_query(&bad_end).unwrap_err()), "Invalid endDate format");
}

fn stats_text(ranged: bool) -> String {
    let b = if ranged { " WHERE added_date >= $1::date AND added_date <= $2::date" } else { " WHERE 1=1" };
    let m = if ranged { " AND created_at >= $1::timestamp AND created_at <= $2::timestamp" } else { "" };
    let i = if ranged { " AND issue_date >= $1::date AND issue_date <= $2::date" } else { "" };
    [
        STATS_PART_0, b, STATS_PART_1, b, STATS_PART_2, b, STATS_PART_3, b, STATS_PART_4, b, STATS_PART_5, m,
        STATS_PART_6, i, STATS_PART_7, i, STATS_PART_8, i, STATS_PART_9,
    ]
    .concat()
}

#[test]
fn statistics_query_ranges() {
    let r = stats_query(&some("2024-01-01"), &some("2024-03-31")).expect("a query");
    assert_eq!(r.sql, stats_text(true));
    assert_eq!(r.binders, vec!["2024-01-01".to_string(), "2024-03-31".to_string()]);

    let one_bound = stats_query(&some("garbage"), &None).expect("a query");
    assert_eq!(one_bound.sql, stats_text(false));
    assert!(one_bound.binders.is_empty());

    assert_eq!(bad_request(stats_query(&some("2024-13-01"), &some("x")).unwrap_err()), "Invalid startDate format");
    assert_eq!(bad_request(stats_query(&some("2024-01-01"), &some("x")).unwrap_err()), "Invalid endDate format");
}

#[test]
fn loan_dates_defaults_and_given() {
    let today = date(2024, 2, 20);
    let (issue, due) = loan_dates(&None, &None, 14, today).expect("dates");
    assert_eq!(ymd(&issue), (2024, 2, 20));
    assert_eq!(ymd(&due), (2024, 3, 5));

    let (issue, due) = loan_dates(&some("2023-12-25"), &some(""), 10, today).expect("dates");
    assert_eq!(ymd(&issue), (2023, 12, 25));
    assert_eq!(ymd(&due), (2024, 1, 4));

    let (issue, due) = loan_dates(&some(""), &some("2024-04-01"), 10, today).expect("dates");
    assert_eq!(ymd(&issue), (2024, 2, 20));
    assert_eq!(ymd(&due), (2024, 4, 1));
}

#[test]
fn loan_dates_today() {
    let (issue, due) = loan_dates_now(&some("2024-06-01"), &None, 7).expect("dates");
    assert_eq!(ymd(&issue), (2024, 6, 1));
    assert_eq!(ymd(&due), (2024, 6, 8));
    let (issue, due) = loan_dates_now(&None, &None, 0).expect("dates");
    assert_eq!(ymd(&issue), ymd(&due));
}

#[test]
fn overdue_days_today() {
    assert_eq!(overdue_days(&date(2024, 3, 10), &date(2024, 3, 1)), Some(9));
    assert_eq!(overdue_days_now(&date(9999, 12, 31)), Some(0));
    let late = overdue_days_now(&date(2000, 1, 1)).expect("days");
    assert!(late > 8000);
    assert_eq!(overdue_days_now(&date(2024, 2, 30)), None);
}

#[test]
fn fine_receipt_numbers() {
    assert_eq!(fine_receipt(1_700_000_000_123), "LIB-COLL-1700000000123");
    assert_eq!(fine_receipt(-5), "LIB-COLL--5");
    let fresh = fresh_fine_receipt();
    let stamp = fresh.strip_prefix("LIB-COLL-").expect("prefix");
    assert!(stamp.parse::<i64>().expect("a number") > 1_600_000_000_000);
}

#[test]
fn whatsapp_status_report() {
    let s = whatsapp_status(true, "meta", "  ", "key-1");
    assert!(s.enabled);
    assert_eq!(s.provider, "meta");
    assert!(!s.phone_number_id_configured);
    assert!(s.api_key_configured);
    let off = whatsapp_status(false, "ultramsg", "inst42", "");
    assert!(!off.enabled);
    assert!(off.phone_number_id_configured);
    assert!(!off.api_key_configured);
}

#[test]
fn catalogue_entry_today() {
    let p = AddBookPayload {
        acc_no: some("A-1"),
        title: "Anatomy".to_string(),
        author: "Gray".to_string(),
        subject: None,
        quantity: None,
        added_date: None,
        sl_no: None,
        book_type: None,
        volume: None,
        number_val: None,
        month: None,
        year: None,
        publisher: None,
    };
    let row = new_book_now(&p, false).expect("an entry");
    assert_eq!(row.quantity, 1);
    assert_eq!(row.book_type, "book");
    assert!(row.added_date.year >= 2024);
    match new_book_now(&p, true) {
        Err(AppError::Conflict(m)) => assert_eq!(m, "Accession number already exists"),
        other => panic!("expected a conflict, got {:?}", other),
    }
}

#[test]
fn member_lookup_by_uuid_or_student_id() {
    assert!(matches!(member_key("67e55044-10b1-426f-9247-bb680e5fe0c8"), MemberKey::RecordId));
    assert!(matches!(member_key("STU-2024-001"), MemberKey::StudentId));
    assert!(matches!(member_key(""), MemberKey::StudentId));
}

#[test]
fn numbers_never_repeat_on_examples() {
    let issues: Vec<String> = [0i64, 9, 10, 98, 99, 999, 1000].iter().map(|n| issue_number(*n)).collect();
    for (i, a) in issues.iter().enumerate() {
        for b in issues.iter().skip(i + 1) {
            assert_ne!(a, b);
        }
    }
    assert_eq!(issues[1], "ISS-010");
    assert_eq!(issues[5], "ISS-1000");
    assert_ne!(fine_receipt(12), fine_receipt(-12));
    assert_ne!(fine_receipt(1), fine_receipt(10));
}

fn message_of(e: AppError) -> String {
    match e {
        AppError::BadRequest(m) | AppError::NotFound(m) | AppError::Conflict(m) | AppError::Internal(m) => m,
    }
}

#[test]
fn issue_checks_in_order() {
    assert_eq!(message_of(issue_checks("inactive", 9, 3, None, 9).unwrap_err()), "Library member account is inactive");
    assert_eq!(message_of(issue_checks("active", 3, 3, None, 0).unwrap_err()), "Member already has 3 books issued");
    assert!(matches!(issue_checks("active", 2, 3, None, 0), Err(AppError::NotFound(_))));
    assert_eq!(message_of(issue_checks("active", 2, 3, Some(2), 2).unwrap_err()), "No copies available");
    assert!(issue_checks("active", 2, 3, Some(2), 1).is_ok());
}

#[test]
fn issue_plan_numbers_allowed_issues() {
    assert_eq!(plan_issue("active", 0, 2, Some(1), 0, 41).unwrap(), "ISS-042");
    assert!(plan_issue("active", 2, 2, Some(1), 0, 41).is_err());
    assert!(plan_issue("active", 1, 2, Some(1), 1, 41).is_err());
}

#[test]
fn empty_added_date_keeps_stored_date() {
    let stored = || BookRow {
        acc_no: None,
        title: "Anatomy".to_string(),
        author: "Gray".to_string(),
        subject: None,
        quantity: 2,
        added_date: date(2023, 3, 4),
        sl_no: None,
        book_type: "book".to_string(),
        volume: None,
        number_val: None,
        month: None,
        year: None,
        publisher: None,
    };
    let change = |d: Option<String>| UpdateBookPayload {
        acc_no: None,
        title: None,
        author: None,
        subject: None,
        quantity: None,
        added_date: d,
        sl_no: None,
        book_type: None,
        volume: None,
        number_val: None,
        month: None,
        year: None,
        publisher: None,
    };
    assert_eq!(ymd(&book_update(stored(), &change(some(""))).added_date), (2023, 3, 4));
    assert_eq!(ymd(&book_update(stored(), &change(some("2024-01-02"))).added_date), (2024, 1, 2));
}

#[test]
fn issues_keep_limits_on_example_store() {
    // One member with a limit of two books, one book with two copies.
    let (mut member_active, mut book_active, mut total) = (0i64, 0i64, 5i64);
    let mut numbers = Vec::new();
    while let Ok(no) = plan_issue("active", member_active, 2, Some(2), book_active, total) {
        numbers.push(no);
        member_active += 1;
        book_active += 1;
        total += 1;
    }
    assert_eq!(numbers, vec!["ISS-006".to_string(), "ISS-007".to_string()]);
    assert_eq!((member_active, book_active), (2, 2));
    assert_eq!(message_of(plan_issue("active", member_active, 2, Some(2), book_active, total).unwrap_err()), "Member already has 2 books issued");
    assert_eq!(message_of(plan_issue("active", 0, 2, Some(2), book_active, total).unwrap_err()), "No copies available");
}
