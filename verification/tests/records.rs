use pratibha_erp::hostel::{update_resident_record, ResidentRow, ResidentUpdate};
use pratibha_erp::transport::{transport_expense_entry, transport_expense_update, transport_student_update, TransportExpenseDraft, TransportExpenseRow, TransportExpenseUpdate, TransportStudentUpdate};
use pratibha_erp::members::{member_update, MemberRow, UpdateMemberPayload};
use pratibha_erp::books::{book_edit, book_update, new_book, AddBookPayload, UpdateBookPayload};
use pratibha_erp::transport::{import_transport_row, TransportStudentDraft};
use pratibha_erp::dates::{CalDate, DateInput};
use pratibha_erp::errors::AppError;
use pratibha_erp::finance_queries::{fee_records_query, expenses_query, service_expenses_query, GetExpensesQuery, GetFeesQuery};
use pratibha_erp::hostel::{
    allocation_record, allocation_record_now, check_allocation, normalize_room_no, require_removed, room_registration,
    rooms_query, update_room_record, GetHostelRoomsQuery, ResidentDraft, RoomDraft, RoomRecord,
    RoomUpdate,
};
use pratibha_erp::inventory::{
    category_name, category_name_free, check_issue, check_return, new_item, renamed_category,
    stock_after, update_item_record, CreateCategoryPayload, ItemDraft, ItemRecord, ItemUpdate,
    StockInfo, UpdateCategoryPayload,
};
use pratibha_erp::library::{
    available_copies, check_book_return, check_copies, check_issue_limit, check_member_active,
    fine_collection, fine_settlement, import_member_status, import_return_applies, issue_number,
    member_or_registry, overdue_days,
};
use pratibha_erp::paging::{page_count, paginate, paginate_checked};
use pratibha_erp::query::{param_text, search_term};
use pratibha_erp::sql_text::{EXPENSES_SERVICE_SQL, EXPENSES_SQL, FEES_SQL, ROOMS_SQL};
use pratibha_erp::transport::{
    expense_vehicle, normalize_reg_no, update_vehicle_record, vehicle_registration, VehicleDraft,
    VehicleRecord, VehicleUpdate,
};

fn some(t: &str) -> Option<String> {
    Some(t.to_string())
}

fn message(e: AppError) -> String {
    match e {
        AppError::BadRequest(m) => m,
        AppError::NotFound(m) => m,
        AppError::Conflict(m) => m,
        AppError::Internal(m) => m,
    }
}

#[test]
fn page_windows() {
    let p = paginate(None, None);
    assert_eq!((p.page, p.limit, p.offset), (1, 50, 0));
    let p = paginate(Some(3), Some(20));
    assert_eq!((p.page, p.limit, p.offset), (3, 20, 40));
    let p = paginate(Some(-4), Some(0));
    assert_eq!((p.page, p.limit, p.offset), (1, 1, 0));
    assert!(paginate_checked(Some(i64::MAX), Some(i64::MAX)).is_none());
}

#[test]
fn page_counts_round_up() {
    assert_eq!(page_count(0, 50), 0);
    assert_eq!(page_count(1, 50), 1);
    assert_eq!(page_count(100, 50), 2);
    assert_eq!(page_count(101, 50), 3);
}

#[test]
fn search_patterns_and_params() {
    assert_eq!(search_term(" ram ", false), "% ram %");
    assert_eq!(search_term(" ram ", true), "%ram%");
    assert_eq!(param_text(12), "$12");
}

#[test]
fn fee_listing_query() {
    let q = GetFeesQuery {
        search: some("ram"),
        class_name: some("GNM 1"),
        course_name: None,
        from_date: some("2024-01-01"),
        to_date: some(""),
        page: None,
        limit: None,
    };
    let r = fee_records_query("hostel", &q).unwrap();
    let expected = format!(
        "{}{}{}{}{}",
        FEES_SQL,
        " AND (s.name ILIKE $2 OR f.student_id ILIKE $2 OR f.receipt_no ILIKE $2)",
        " AND s.class_name = $3",
        " AND f.payment_date >= $4::date",
        " ORDER BY f.payment_date DESC, f.created_at DESC LIMIT $5 OFFSET $6"
    );
    assert_eq!(r.sql, expected);
    assert_eq!(r.binders, vec!["hostel", "%ram%", "GNM 1", "2024-01-01"]);
}

#[test]
fn fee_listing_all_classes_and_bad_date() {
    let q = GetFeesQuery {
        search: None,
        class_name: some("All Classes"),
        course_name: None,
        from_date: None,
        to_date: some("2024-31-01"),
        page: None,
        limit: None,
    };
    match fee_records_query("tuition", &q) {
        Err(AppError::BadRequest(m)) => assert_eq!(m, "Invalid toDate"),
        _ => panic!("expected a bad request"),
    }
    let q = GetFeesQuery { to_date: None, ..q };
    let r = fee_records_query("tuition", &q).unwrap();
    assert_eq!(r.binders, vec!["tuition"]);
    assert!(r.sql.ends_with(" ORDER BY f.payment_date DESC, f.created_at DESC LIMIT $2 OFFSET $3"));
    assert!(r.sql.starts_with(FEES_SQL));
}

#[test]
fn expense_listing_queries() {
    let q = GetExpensesQuery {
        search: some(" ink "),
        category: some("All Categories"),
        from_date: None,
        to_date: None,
        start_date: some("2024-05-01"),
        end_date: some("bad"),
        page: None,
        limit: None,
    };
    let r = expenses_query(&q).unwrap();
    assert_eq!(
        r.sql,
        format!(
            "{}{}{}",
            EXPENSES_SQL,
            " AND (description ILIKE $1 OR ref_no ILIKE $1 OR utr ILIKE $1 OR party_name ILIKE $1 OR voucher_no ILIKE $1)",
            " ORDER BY date DESC, created_at DESC LIMIT $2 OFFSET $3"
        )
    );
    assert_eq!(r.binders, vec!["% ink %"]);
    let s = service_expenses_query(&q);
    assert_eq!(
        s.sql,
        format!(
            "{}{}{}{}",
            EXPENSES_SERVICE_SQL,
            " AND (description ILIKE $1 OR party_name ILIKE $1 OR remarks ILIKE $1 OR voucher_no ILIKE $1)",
            " AND date >= $2",
            " ORDER BY date DESC, created_at DESC LIMIT $3 OFFSET $4"
        )
    );
    assert_eq!(s.binders, vec!["%ink%", "2024-05-01"]);
}

#[test]
fn room_listing_query() {
    let q = GetHostelRoomsQuery { search: None, block: some("A"), room_type: some("All Types"), status: None };
    let r = rooms_query(&q);
    assert_eq!(r.sql, format!("{} AND hr.block = $1 ORDER BY hr.block ASC, hr.room_no ASC", ROOMS_SQL));
    assert_eq!(r.binders, vec!["A"]);
}

#[test]
fn room_registration_rules() {
    let d = RoomDraft { room_no: " a-101 ".to_string(), block: " A ".to_string(), floor: None, capacity: None, room_type: None, status: None, remarks: None };
    let r = room_registration(&d).unwrap_or_else(|_| panic!("valid room"));
    assert_eq!(r.room_no, "A-101");
    assert_eq!(r.block, "A");
    assert_eq!(r.floor, "Ground Floor");
    assert_eq!(r.capacity, 4);
    assert_eq!(r.room_type, "Non-AC");
    assert_eq!(r.status, "available");
    assert_eq!(r.remarks, some("—"));
    let d = RoomDraft { room_no: " ".to_string(), ..d };
    assert_eq!(message(room_registration(&d).err().unwrap()), "Room number is required");
    assert_eq!(normalize_room_no(" b-2 "), "B-2");
}

#[test]
fn room_update_and_empty_update() {
    let old = RoomRecord { room_no: "A-1".to_string(), block: "A".to_string(), floor: "1".to_string(), capacity: 2, room_type: "AC".to_string(), status: "full".to_string(), remarks: None };
    let u = RoomUpdate { room_no: some(" c-3 "), block: None, floor: some(" 2 "), capacity: Some(3), room_type: None, status: None, remarks: some("x") };
    let r = update_room_record(old, u);
    assert_eq!(r.room_no, "C-3");
    assert_eq!(r.floor, "2");
    assert_eq!(r.capacity, 3);
    assert_eq!(r.room_type, "AC");
    let empty = RoomUpdate { room_no: None, block: None, floor: None, capacity: None, room_type: None, status: None, remarks: None };
    let same = update_room_record(r, empty);
    assert_eq!(same.room_no, "C-3");
    assert_eq!(same.remarks, some("x"));
}

#[test]
fn allocations() {
    let d = ResidentDraft { student_id: " STU-1 ".to_string(), room_no: "b-2".to_string(), bed_no: None, check_in_date: None, status: None, emergency_contact: None, remarks: None };
    assert!(check_allocation(&d).is_ok());
    let today = CalDate { year: 2024, month: 8, day: 1 };
    let r = allocation_record(&d, None, true, DateInput::Absent, today).unwrap_or_else(|_| panic!("room exists"));
    assert_eq!(r.student_id, "STU-1");
    assert_eq!(r.room_no, "B-2");
    assert_eq!(r.bed_no, "Bed 1");
    assert_eq!((r.check_in_date.year, r.check_in_date.month, r.check_in_date.day), (2024, 8, 1));
    let e = allocation_record(&d, some("STU-001"), false, DateInput::Absent, today).err().unwrap();
    assert_eq!(message(e), "Room 'B-2' is not registered in hostel room inventory. Please select or register a valid room first.");
    assert_eq!(message(require_removed(0, "Room not found").unwrap_err()), "Room not found");
}

#[test]
fn vehicles() {
    assert_eq!(normalize_reg_no(" ka 01 ab 1234 "), "KA 01 AB 1234");
    let d = VehicleDraft { reg_no: "ka-01".to_string(), vehicle_type: "Bus".to_string(), capacity: None, driver: None, route: None, status: None, remarks: None };
    assert!(vehicle_registration(&d, true).is_err());
    let old = VehicleRecord { reg_no: "KA01".to_string(), vehicle_type: "Bus".to_string(), capacity: 40, driver: "Raju".to_string(), route: "North".to_string(), status: "active".to_string(), remarks: "—".to_string() };
    let u = VehicleUpdate { reg_no: some("ka02"), vehicle_type: None, capacity: None, driver: some("Mohan"), route: None, status: None, remarks: None };
    let e = update_vehicle_record(old, u, true).err().unwrap();
    assert_eq!(message(e), "Registration number already assigned to another vehicle");
    assert_eq!(message(expense_vehicle("ka 09", false).unwrap_err()), "Vehicle KA 09 is not registered");
    assert_eq!(expense_vehicle("ka 09", true).unwrap(), "KA 09");
}

#[test]
fn categories_and_items() {
    let p = CreateCategoryPayload { name: "  Lab ".to_string(), description: None };
    assert_eq!(category_name(&p).unwrap(), "Lab");
    assert_eq!(message(category_name_free(true).unwrap_err()), "Category with this name already exists");
    let u = UpdateCategoryPayload { name: some(" Stores "), description: None };
    assert_eq!(renamed_category(&u).unwrap(), "Stores");
    let d = ItemDraft { name: " Gloves ".to_string(), required_qty: None, available_qty: Some(-1), low_stock_threshold: None, unit: None, description: None };
    assert_eq!(message(new_item(&d).err().unwrap()), "Available quantity cannot be negative");
    let d = ItemDraft { available_qty: Some(10), ..d };
    let it = new_item(&d).unwrap_or_else(|_| panic!("valid item"));
    assert_eq!(it.name, "Gloves");
    assert_eq!(it.low_stock_threshold, 5);
    assert_eq!(it.unit, "pcs");
    let old = ItemRecord { name: "Gloves".to_string(), required_qty: 0, available_qty: 10, low_stock_threshold: 5, unit: "pcs".to_string(), description: None };
    let u = ItemUpdate { name: some(" Masks "), required_qty: None, available_qty: Some(7), low_stock_threshold: None, unit: None, description: None };
    let it = update_item_record(old, u);
    assert_eq!(it.name, "Masks");
    assert_eq!(it.available_qty, 7);
    assert_eq!(it.unit, "pcs");
}

#[test]
fn stock_issue_and_return() {
    assert_eq!(message(check_issue(0, None).unwrap_err()), "Quantity must be greater than zero");
    assert_eq!(message(check_issue(2, None).unwrap_err()), "Item not found");
    let info = StockInfo { available: 3, unit: "boxes".to_string() };
    assert_eq!(message(check_issue(5, Some(info)).unwrap_err()), "Insufficient stock. Only 3 boxes available.");
    let info = StockInfo { available: 3, unit: "boxes".to_string() };
    assert!(check_issue(3, Some(info)).is_ok());
    let after = stock_after(3, -3).unwrap();
    assert_eq!(after, 0);
    assert_eq!(stock_after(after, 3), Some(3));
    assert_eq!(stock_after(i32::MAX, 1), None);
    assert_eq!(message(check_return(None).unwrap_err()), "Issue record not found");
    assert_eq!(message(check_return(some("returned")).unwrap_err()), "Item already returned");
    assert!(check_return(some("issued")).is_ok());
}

#[test]
fn library_issue_rules() {
    assert!(!member_or_registry(true, false).unwrap());
    assert!(member_or_registry(false, true).unwrap());
    assert_eq!(message(member_or_registry(false, false).unwrap_err()), "Student or library member not found in registry");
    assert_eq!(message(check_member_active("inactive").unwrap_err()), "Library member account is inactive");
    assert_eq!(message(check_issue_limit(3, 3).unwrap_err()), "Member already has 3 books issued");
    assert!(check_issue_limit(2, 3).is_ok());
    assert_eq!(message(check_copies(None, 0).unwrap_err()), "Book not found");
    assert_eq!(message(check_copies(Some(2), 2).unwrap_err()), "No copies available");
    assert_eq!(issue_number(0), "ISS-001");
    assert_eq!(issue_number(41), "ISS-042");
    assert_eq!(issue_number(1234), "ISS-1235");
    assert_eq!(message(check_book_return(some("returned")).unwrap_err()), "Book already returned");
}

#[test]
fn overdue_counts() {
    let due = CalDate { year: 2024, month: 3, day: 1 };
    assert_eq!(overdue_days(&CalDate { year: 2024, month: 3, day: 4 }, &due), Some(3));
    assert_eq!(overdue_days(&CalDate { year: 2024, month: 3, day: 5 }, &due), Some(4));
    assert_eq!(overdue_days(&CalDate { year: 2024, month: 2, day: 28 }, &due), Some(0));
    assert_eq!(available_copies(5, 2, 1), 2);
    assert_eq!(available_copies(2, 2, 1), 0);
}

#[test]
fn fines_and_imports() {
    let f = fine_collection("Fine WAIVED by HOD");
    assert!(f.waived);
    assert_eq!(f.payment_mode, "Waived");
    assert_eq!(f.remarks, "Waived by Librarian");
    let f = fine_collection("late by 3 days");
    assert_eq!(f.payment_mode, "Cash");
    assert_eq!(f.remarks, "Paid to Library - late by 3 days");
    let s = fine_settlement(&some("Waived"), false, &None);
    assert!(s.fine_paid);
    assert_eq!(s.issue_remarks, "Waived");
    let s = fine_settlement(&None, false, &None);
    assert!(!s.fine_paid);
    assert_eq!(s.issue_remarks, "Paid");
    assert!(import_return_applies("ISS-001", &some("issued")));
    assert!(!import_return_applies("ISS-001", &some("returned")));
    assert!(!import_return_applies(" ", &some("issued")));
    assert_eq!(import_member_status("STU-1", "Asha", &None), some("active"));
    assert_eq!(import_member_status("STU-1", " ", &None), None);
}

#[test]
fn imported_transport_rows() {
    let d = TransportStudentDraft {
        student_id: "STU-5".to_string(),
        vehicle_no: some(" ka 05 "),
        route: some("East"),
        pickup_point: None,
        status: None,
        remarks: None,
    };
    assert_eq!(
        message(import_transport_row(&d, false, true).unwrap_err()),
        "Student ID \"STU-5\" is not registered in the system"
    );
    assert_eq!(
        message(import_transport_row(&d, true, false).unwrap_err()),
        "Vehicle \" ka 05 \" is not registered"
    );
    let x = import_transport_row(&d, true, true).unwrap();
    assert_eq!(x.vehicle_no, some("KA 05"));
    assert_eq!(x.status, some("active"));
    assert_eq!(x.remarks, some("—"));
    let d = TransportStudentDraft { vehicle_no: some(""), ..d };
    let x = import_transport_row(&d, true, false).unwrap();
    assert_eq!(x.vehicle_no, some(""));
}

#[test]
fn catalogue_entries() {
    let today = CalDate { year: 2024, month: 9, day: 9 };
    let p = AddBookPayload {
        acc_no: some("A-1"),
        title: "Anatomy".to_string(),
        author: "Ross".to_string(),
        subject: None,
        quantity: None,
        added_date: some(""),
        sl_no: None,
        book_type: None,
        volume: None,
        number_val: None,
        month: None,
        year: None,
        publisher: None,
    };
    assert_eq!(message(new_book(&p, true, today).unwrap_err()), "Accession number already exists");
    let b = new_book(&p, false, today).unwrap();
    assert_eq!(b.quantity, 1);
    assert_eq!(b.book_type, "book");
    assert_eq!((b.added_date.year, b.added_date.month, b.added_date.day), (2024, 9, 9));
    let u = UpdateBookPayload {
        acc_no: None,
        title: some("Anatomy II"),
        author: None,
        subject: some("Bio"),
        quantity: Some(3),
        added_date: some("2023-01-02"),
        sl_no: None,
        book_type: some("magazine"),
        volume: None,
        number_val: None,
        month: None,
        year: None,
        publisher: None,
    };
    let b = book_edit(b, &u, true).unwrap();
    assert_eq!(b.title, "Anatomy II");
    assert_eq!(b.author, "Ross");
    assert_eq!(b.subject, some("Bio"));
    assert_eq!(b.quantity, 3);
    assert_eq!((b.added_date.year, b.added_date.month, b.added_date.day), (2023, 1, 2));
    let u2 = UpdateBookPayload { added_date: some("someday"), acc_no: some("A-2"), ..u };
    let b = book_update(b, &u2);
    assert_eq!((b.added_date.year, b.added_date.month, b.added_date.day), (2023, 1, 2));
    assert_eq!(b.acc_no, some("A-2"));
}

#[test]
fn membership_updates() {
    let old = MemberRow { name: "Asha".to_string(), class: None, phone: some("98"), status: "active".to_string() };
    let u = UpdateMemberPayload { name: None, class: some("GNM 1"), phone: None, status: some("inactive") };
    let x = member_update(old, &u);
    assert_eq!(x.name, "Asha");
    assert_eq!(x.class, some("GNM 1"));
    assert_eq!(x.phone, some("98"));
    assert_eq!(x.status, "inactive");
    let same = member_update(x, &UpdateMemberPayload { name: None, class: None, phone: None, status: None });
    assert_eq!(same.status, "inactive");
}

#[test]
fn resident_updates() {
    let old = ResidentRow {
        student_id: "STU-1".to_string(),
        room_no: "A-1".to_string(),
        bed_no: some("Bed 1"),
        check_in_date: Some(CalDate { year: 2024, month: 6, day: 1 }),
        status: "active".to_string(),
        emergency_contact: None,
        remarks: None,
    };
    let u = ResidentUpdate {
        room_no: some(" b-4 "),
        bed_no: None,
        check_in_date: some("bad"),
        status: some("left"),
        emergency_contact: some("98"),
        remarks: None,
    };
    let x = update_resident_record(old, &u);
    assert_eq!(x.room_no, "B-4");
    assert_eq!(x.bed_no, some("Bed 1"));
    let d = x.check_in_date.unwrap();
    assert_eq!((d.year, d.month, d.day), (2024, 6, 1));
    assert_eq!(x.status, "left");
    assert_eq!(x.emergency_contact, some("98"));
    let u = ResidentUpdate { check_in_date: some("2024-07-15"), ..u };
    let y = update_resident_record(x, &u);
    let d = y.check_in_date.unwrap();
    assert_eq!((d.year, d.month, d.day), (2024, 7, 15));
}

#[test]
fn vehicle_expenses() {
    let d = TransportExpenseDraft {
        date: "2024-04-10".to_string(),
        vehicle_no: " ka 01 ".to_string(),
        type_val: " Fuel ".to_string(),
        vendor: " HP ".to_string(),
        payment_mode: None,
        remarks: None,
        utr_no: None,
    };
    assert_eq!(message(transport_expense_entry(&d, false).unwrap_err()), "Vehicle KA 01 is not registered");
    let x = transport_expense_entry(&d, true).unwrap();
    assert_eq!(x.vehicle_no, "KA 01");
    assert_eq!(x.type_val, "Fuel");
    assert_eq!(x.vendor, "HP");
    assert_eq!(x.payment_mode, "Online");
    assert_eq!(x.utr_no, "—");
    let bad_date = TransportExpenseDraft { date: "10-04-2024".to_string(), ..d };
    assert_eq!(message(transport_expense_entry(&bad_date, true).unwrap_err()), "Invalid date format");
    let u = TransportExpenseUpdate {
        date: some("nope"),
        vehicle_no: some("ka 02"),
        type_val: None,
        vendor: some("IOC"),
        payment_mode: None,
        remarks: some("April"),
        utr_no: None,
    };
    let old = TransportExpenseRow {
        date: CalDate { year: 2024, month: 4, day: 10 },
        vehicle_no: "KA 01".to_string(),
        type_val: "Fuel".to_string(),
        vendor: "HP".to_string(),
        payment_mode: "Cash".to_string(),
        remarks: None,
        utr_no: "—".to_string(),
    };
    assert_eq!(message(transport_expense_update(old, &u, false).unwrap_err()), "Vehicle KA 02 is not registered");
}

#[test]
fn vehicle_expense_update_applies() {
    let old = TransportExpenseRow {
        date: CalDate { year: 2024, month: 4, day: 10 },
        vehicle_no: "KA 01".to_string(),
        type_val: "Fuel".to_string(),
        vendor: "HP".to_string(),
        payment_mode: "Cash".to_string(),
        remarks: None,
        utr_no: "—".to_string(),
    };
    let u = TransportExpenseUpdate {
        date: some("2024-05-01"),
        vehicle_no: some("ka 02"),
        type_val: None,
        vendor: some("IOC"),
        payment_mode: None,
        remarks: some("April"),
        utr_no: None,
    };
    let x = transport_expense_update(old, &u, true).unwrap();
    assert_eq!(x.vehicle_no, "KA 02");
    assert_eq!((x.date.year, x.date.month, x.date.day), (2024, 5, 1));
    assert_eq!(x.vendor, "IOC");
    assert_eq!(x.type_val, "Fuel");
    assert_eq!(x.remarks, some("April"));
}

#[test]
fn transport_student_updates() {
    let old = TransportStudentDraft {
        student_id: "STU-1".to_string(),
        vehicle_no: some("KA 01"),
        route: some("North"),
        pickup_point: None,
        status: some("active"),
        remarks: None,
    };
    let u = TransportStudentUpdate { vehicle_no: some(""), route: None, pickup_point: some("Gate 2"), status: None, remarks: None };
    let x = transport_student_update(old, &u, false).unwrap();
    assert_eq!(x.vehicle_no, None);
    assert_eq!(x.pickup_point, some("Gate 2"));
    assert_eq!(x.route, some("North"));
    let u = TransportStudentUpdate { vehicle_no: some("ka 09"), route: None, pickup_point: None, status: None, remarks: None };
    assert_eq!(message(transport_student_update(x, &u, false).unwrap_err()), "Vehicle KA 09 is not registered");
}

#[test]
fn allocation_today() {
    let d = ResidentDraft { student_id: "STU-9".to_string(), room_no: " a-1".to_string(), bed_no: some("Bed 2"), check_in_date: some("2024-07-15"), status: None, emergency_contact: None, remarks: None };
    let r = allocation_record_now(&d, some("stu-9"), true).unwrap_or_else(|_| panic!("room exists"));
    assert_eq!(r.student_id, "stu-9");
    assert_eq!(r.room_no, "A-1");
    assert_eq!(r.bed_no, "Bed 2");
    assert_eq!((r.check_in_date.year, r.check_in_date.month, r.check_in_date.day), (2024, 7, 15));
    let undated = ResidentDraft { check_in_date: some("15/07/2024"), ..d };
    let r = allocation_record_now(&undated, None, true).unwrap_or_else(|_| panic!("room exists"));
    assert!(r.check_in_date.year >= 2024);
    assert!(allocation_record_now(&undated, None, false).is_err());
}
