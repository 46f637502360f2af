use pratibha_erp::fees::{fee_deletion, needs_first_class, student_prep, MissingDelete, receipt_lookup_needed, registry_lookup_needed, service_expense_entry_now};
use pratibha_erp::fees::{plan_collection_for, service_fee_kind};
use pratibha_erp::dates::CalDate;
use pratibha_erp::errors::AppError;
use pratibha_erp::fees::{
    check_update_refs, clean_label, default_student_name, discount_from_request, expense_edit,
    expense_entry, expense_update, fee_change_route, fee_kind, fill_if_blank, fine_payment,
    fine_payment_now, fresh_receipt_number, fresh_ref_no, hostel_update, is_receipt_given,
    library_placeholder_student, new_expense_entry, new_fee_row, official_label, period_date,
    placeholder_student, plan_collection, receipt_clash, receipt_number, ref_no_from,
    reopens_fines, require_registered, service_expense_entry, student_sync, transport_default_class,
    transport_name, transport_sync, transport_update_fields, tuition_update, update_target,
    usable_name, AddExpensePayload, AddFeeRecordPayload, AmountSign, CurrentLabels, ExpenseRow,
    FeeChangeRoute, FeeKind, FeeRow, ReceiptWrite, UpdateExpensePayload, UpdateFeeRecordPayload,
    UpdateTarget,
};

fn s(t: &str) -> String {
    t.to_string()
}

fn some(t: &str) -> Option<String> {
    Some(t.to_string())
}

fn bad(e: AppError) -> String {
    match e {
        AppError::BadRequest(m) => m,
        _ => panic!("expected a bad request"),
    }
}

fn missing(e: AppError) -> String {
    match e {
        AppError::NotFound(m) => m,
        _ => panic!("expected a not-found error"),
    }
}

fn clash(e: AppError) -> String {
    match e {
        AppError::Conflict(m) => m,
        _ => panic!("expected a conflict"),
    }
}

fn ymd(d: &CalDate) -> (i32, u32, u32) {
    (d.year, d.month, d.day)
}

fn fee_form() -> AddFeeRecordPayload {
    AddFeeRecordPayload {
        student_id: s("STU-100"),
        student_name: None,
        class_name: None,
        course_name: None,
        room: None,
        bus_route: None,
        bus_no: None,
        receipt_book_no: None,
        receipt_no: s("R-1"),
        receipt_date: s("2024-04-01"),
        payment_date: s("2024-04-02"),
        amount: AmountSign::Positive,
        utr_no: None,
        payment_mode: None,
        due_fees: None,
        remarks: None,
        discount: None,
        duration: None,
        start_date: None,
        end_date: None,
    }
}

fn fee_change() -> UpdateFeeRecordPayload {
    UpdateFeeRecordPayload {
        id: None,
        student_id: None,
        student_name: None,
        class_name: None,
        course_name: None,
        fee_type: None,
        room: None,
        bus_route: None,
        bus_no: None,
        receipt_book_no: None,
        receipt_no: None,
        receipt_date: None,
        payment_date: None,
        amount: None,
        utr_no: None,
        payment_mode: None,
        due_fees: None,
        remarks: None,
        discount: None,
        duration: None,
        start_date: None,
        end_date: None,
    }
}

fn stored_row() -> FeeRow {
    FeeRow {
        student_id: s("STU-1"),
        fee_type: s("tuition"),
        room: s("—"),
        bus_route: s("Route 9"),
        bus_no: s("KA-01"),
        receipt_book_no: s("B1"),
        receipt_no: s("R-1"),
        receipt_date: CalDate { year: 2024, month: 1, day: 5 },
        payment_date: CalDate { year: 2024, month: 1, day: 6 },
        utr_no: s("—"),
        payment_mode: s("Cash"),
        remarks: None,
        duration: Some(3),
        start_date: Some(CalDate { year: 2024, month: 1, day: 1 }),
        end_date: None,
    }
}

fn expense_form() -> AddExpensePayload {
    AddExpensePayload {
        description: s("  Printer ink "),
        amount: AmountSign::Positive,
        category: None,
        date: None,
        payment_mode: None,
        remarks: None,
        utr: None,
        receipt: None,
        party_name: None,
        spent_by: None,
        voucher_no: None,
    }
}

fn expense_change() -> UpdateExpensePayload {
    UpdateExpensePayload {
        description: None,
        amount: None,
        category: None,
        date: None,
        payment_mode: None,
        remarks: None,
        utr: None,
        receipt: None,
        party_name: None,
        spent_by: None,
        voucher_no: None,
    }
}

fn stored_expense() -> ExpenseRow {
    ExpenseRow {
        ref_no: s("EXP-1"),
        description: s("Fuel"),
        category: some("transport"),
        date: CalDate { year: 2024, month: 2, day: 10 },
        payment_mode: s("Cash"),
        remarks: some("—"),
        utr: some("—"),
        receipt: some("—"),
        party_name: some("HP"),
        spent_by: some("Ravi"),
        voucher_no: some("EXP-1"),
    }
}

#[test]
fn valid_fee_form_passes() {
    assert!(fee_form().validate().is_ok());
    let mut p = fee_form();
    p.payment_mode = some("UPI");
    p.due_fees = Some(AmountSign::Zero);
    p.discount = Some(AmountSign::Positive);
    assert!(p.validate().is_ok());
}

#[test]
fn fee_form_rules_in_order() {
    let mut p = fee_form();
    p.student_id = s("   ");
    p.receipt_no = s("");
    assert_eq!(bad(p.validate().unwrap_err()), "student_id must be between 1 and 50 characters");
    let mut p = fee_form();
    p.receipt_no = "x".repeat(51);
    assert_eq!(bad(p.validate().unwrap_err()), "receipt_no must be between 1 and 50 characters");
    let mut p = fee_form();
    p.receipt_date = s("01-04-2024");
    assert_eq!(bad(p.validate().unwrap_err()), "receipt_date must be in YYYY-MM-DD format");
    let mut p = fee_form();
    p.payment_date = s("2024-02-30");
    assert_eq!(bad(p.validate().unwrap_err()), "payment_date must be in YYYY-MM-DD format");
    let mut p = fee_form();
    p.amount = AmountSign::Negative;
    assert_eq!(bad(p.validate().unwrap_err()), "amount must be positive or zero");
    let mut p = fee_form();
    p.due_fees = Some(AmountSign::Negative);
    assert_eq!(bad(p.validate().unwrap_err()), "due_fees must be positive or zero");
    let mut p = fee_form();
    p.discount = Some(AmountSign::Negative);
    assert_eq!(bad(p.validate().unwrap_err()), "discount must be positive or zero");
    let mut p = fee_form();
    p.payment_mode = some("Paytm");
    assert_eq!(
        bad(p.validate().unwrap_err()),
        "payment_mode must be Online, Cash, Bank, Cheque, UPI, Card, or Waived"
    );
}

#[test]
fn fee_form_length_counts_bytes() {
    let mut p = fee_form();
    p.student_id = "é".repeat(26);
    assert_eq!(bad(p.validate().unwrap_err()), "student_id must be between 1 and 50 characters");
    p.student_id = "é".repeat(25);
    assert!(p.validate().is_ok());
    p.student_id = "a".repeat(50);
    assert!(p.validate().is_ok());
}

#[test]
fn zero_and_nan_amounts_pass_fee_rules() {
    let mut p = fee_form();
    p.amount = AmountSign::Zero;
    assert!(p.validate().is_ok());
    p.amount = AmountSign::NotANumber;
    assert!(p.validate().is_ok());
}

#[test]
fn fee_change_rules() {
    assert!(fee_change().validate().is_ok());
    let mut u = fee_change();
    u.fee_type = some("exam");
    assert_eq!(
        bad(u.validate().unwrap_err()),
        "fee_type must be tuition, hostel, transport, or library"
    );
    let mut u = fee_change();
    u.fee_type = some("library");
    u.receipt_date = some("5 Jan 2024");
    assert_eq!(bad(u.validate().unwrap_err()), "receipt_date must be in YYYY-MM-DD format");
    let mut u = fee_change();
    u.amount = Some(AmountSign::Negative);
    assert_eq!(bad(u.validate().unwrap_err()), "amount must be positive or zero");
    let mut u = fee_change();
    u.student_id = some("");
    assert_eq!(bad(u.validate().unwrap_err()), "student_id must be between 1 and 50 characters");
}

#[test]
fn expense_rules() {
    assert!(expense_form().validate().is_ok());
    let mut p = expense_form();
    p.description = s(" ");
    assert_eq!(
        bad(p.validate().unwrap_err()),
        "description is required and must not exceed 255 characters"
    );
    let mut p = expense_form();
    p.amount = AmountSign::Zero;
    assert_eq!(bad(p.validate().unwrap_err()), "amount must be greater than 0");
    let mut p = expense_form();
    p.date = some("");
    assert!(p.validate().is_ok());
    p.date = some("2024-13-01");
    assert_eq!(bad(p.validate().unwrap_err()), "date must be in YYYY-MM-DD format");
    let mut p = expense_form();
    p.payment_mode = some("UPI");
    assert_eq!(
        bad(p.validate().unwrap_err()),
        "payment_mode must be Online, Cash, Bank, or Cheque"
    );
}

#[test]
fn expense_change_rules() {
    assert!(expense_change().validate().is_ok());
    let mut u = expense_change();
    u.category = some(&"c".repeat(101));
    assert_eq!(bad(u.validate().unwrap_err()), "category must not exceed 100 characters");
    let mut u = expense_change();
    u.amount = Some(AmountSign::Negative);
    assert_eq!(bad(u.validate().unwrap_err()), "amount must be greater than 0");
    let mut u = expense_change();
    u.description = some("");
    assert_eq!(bad(u.validate().unwrap_err()), "description must not exceed 255 characters");
}

#[test]
fn fee_kinds() {
    assert!(matches!(fee_kind("library"), FeeKind::Library));
    assert!(matches!(fee_kind("transport"), FeeKind::Transport));
    assert!(matches!(fee_kind("hostel"), FeeKind::Hostel));
    assert!(matches!(fee_kind("tuition"), FeeKind::Tuition));
    assert!(matches!(fee_kind("Hostel"), FeeKind::Tuition));
    assert!(discount_from_request(&FeeKind::Hostel));
    assert!(!discount_from_request(&FeeKind::Library));
}

#[test]
fn receipt_numbers() {
    assert!(is_receipt_given("R-7"));
    assert!(!is_receipt_given("  "));
    assert!(!is_receipt_given("—"));
    assert_eq!(receipt_number(&FeeKind::Tuition, " R-7", 5), " R-7");
    assert_eq!(receipt_number(&FeeKind::Tuition, "", 1712000000123456), "TU-1712000000123456");
    assert_eq!(receipt_number(&FeeKind::Hostel, "—", 42), "HS-42");
    assert_eq!(receipt_number(&FeeKind::Transport, " ", -3), "TR--3");
    assert_eq!(receipt_number(&FeeKind::Library, "", 0), "LIB-0");
    assert_ne!(receipt_number(&FeeKind::Transport, "", 7), receipt_number(&FeeKind::Transport, "", 70));
    assert_ne!(receipt_number(&FeeKind::Transport, "", 5), receipt_number(&FeeKind::Transport, "", -5));
}

#[test]
fn chosen_receipt_is_kept_on_examples() {
    let first = receipt_number(&FeeKind::Tuition, "", 99);
    assert_eq!(receipt_number(&FeeKind::Tuition, &first, 100), first);
    let first = receipt_number(&FeeKind::Library, "R-5", 1);
    assert_eq!(receipt_number(&FeeKind::Library, &first, 2), first);
}

#[test]
fn fresh_receipt_numbers() {
    assert_eq!(fresh_receipt_number(&FeeKind::Hostel, "R-9"), "R-9");
    let r = fresh_receipt_number(&FeeKind::Transport, "");
    assert!(r.starts_with("TR-"));
    assert!(r[3..].chars().all(|c| c.is_ascii_digit()));
}

#[test]
fn receipt_clash_policies() {
    assert!(matches!(receipt_clash(&FeeKind::Tuition, "R-1", false), Ok(ReceiptWrite::Insert)));
    assert_eq!(
        clash(receipt_clash(&FeeKind::Tuition, "R-1", true).unwrap_err()),
        "Receipt No. R-1 has already been logged"
    );
    assert!(matches!(receipt_clash(&FeeKind::Tuition, "—", true), Ok(ReceiptWrite::Insert)));
    assert_eq!(
        bad(receipt_clash(&FeeKind::Transport, "TR-5", true).unwrap_err()),
        "Receipt No. 'TR-5' already exists in fee records. Please use a unique receipt number, or use the Edit button on the table row to modify existing records."
    );
    assert!(matches!(receipt_clash(&FeeKind::Hostel, "R-1", true), Ok(ReceiptWrite::Overwrite)));
    assert!(matches!(receipt_clash(&FeeKind::Library, "R-1", true), Ok(ReceiptWrite::Overwrite)));
}

#[test]
fn unregistered_student() {
    assert!(require_registered("STU-9", true).is_ok());
    assert_eq!(
        missing(require_registered("STU-9", false).unwrap_err()),
        "Student with ID STU-9 is not registered"
    );
}

#[test]
fn placeholder_students() {
    assert_eq!(default_student_name("STU-3"), "Student STU-3");
    let p = fee_form();
    let st = placeholder_student(&p, "B.Sc. Nursing 1st Year");
    assert_eq!(st.name, "Student STU-100");
    assert_eq!(st.class_name, "B.Sc. Nursing 1st Year");
    assert_eq!(ymd(&st.dob), (2000, 1, 1));
    let mut p = fee_form();
    p.student_name = some("Meera");
    p.class_name = some("GNM 2");
    let st = placeholder_student(&p, "CLASS 8");
    assert_eq!(st.name, "Meera");
    assert_eq!(st.class_name, "GNM 2");
    let lib = library_placeholder_student("STU-4");
    assert_eq!(lib.name, "Student STU-4");
    assert_eq!(lib.class_name, "B.Sc. Nursing 1st Year");
    assert_eq!(transport_default_class(None), "CLASS 8");
    assert_eq!(transport_default_class(some("ANM 1")), "ANM 1");
}

#[test]
fn name_and_label_rules() {
    assert!(usable_name("Meera"));
    assert!(!usable_name("  "));
    assert!(!usable_name("Student STU-001"));
    assert_eq!(clean_label("  GNM 2 "), some("GNM 2"));
    assert_eq!(clean_label("—"), None);
    assert_eq!(clean_label("Select Class"), None);
    assert_eq!(clean_label("-- SELECT --"), None);
    assert_eq!(clean_label("   "), None);
    assert!(transport_name("Meera"));
    assert!(!transport_name("—"));
    assert!(!transport_name("Select student"));
    assert!(transport_name("select student"));
}

#[test]
fn official_labels() {
    assert_eq!(official_label(&None, None, true).unwrap(), None);
    assert_eq!(official_label(&some("Select"), None, true).unwrap(), None);
    assert_eq!(official_label(&some(" gnm 2 "), some("GNM 2"), true).unwrap(), some("GNM 2"));
    assert_eq!(
        bad(official_label(&some(" XYZ "), None, true).unwrap_err()),
        "Invalid Class Name 'XYZ'. It does not exist in master classes. Please select a valid class option."
    );
    assert_eq!(
        bad(official_label(&some("Pharm"), None, false).unwrap_err()),
        "Invalid Course Name 'Pharm'. It does not exist in master courses. Please select a valid course option."
    );
}

#[test]
fn fill_only_blank_labels() {
    assert_eq!(fill_if_blank(some("A"), &None), some("A"));
    assert_eq!(fill_if_blank(some("A"), &some("  ")), some("A"));
    assert_eq!(fill_if_blank(some("A"), &some("B")), None);
}

#[test]
fn hostel_student_sync() {
    let st = student_sync(s("STU-1"), &some("Student STU-1"), &some(" GNM 1 "), &some("select"));
    assert_eq!(st.student_id, "STU-1");
    assert_eq!(st.name, None);
    assert_eq!(st.class_name, some("GNM 1"));
    assert_eq!(st.course_name, None);
}

#[test]
fn transport_student_sync() {
    let mut p = fee_form();
    p.student_name = some("Meera");
    p.class_name = some("gnm 1");
    p.course_name = some("nursing");
    let current = Some(CurrentLabels { class_name: some("GNM 1"), course_name: None });
    let st = transport_sync(&p, some("GNM 1"), some("Nursing"), &current).unwrap();
    assert_eq!(st.name, some("Meera"));
    assert_eq!(st.class_name, None);
    assert_eq!(st.course_name, some("Nursing"));
    let st = transport_sync(&p, some("GNM 1"), some("Nursing"), &None).unwrap();
    assert_eq!(st.class_name, some("GNM 1"));
    let e = transport_sync(&p, None, None, &None).unwrap_err();
    assert_eq!(
        bad(e),
        "Invalid Class Name 'gnm 1'. It does not exist in master classes. Please select a valid class option."
    );
}

#[test]
fn period_dates_read_trimmed() {
    let d = period_date(&some(" 2024-06-01 ")).unwrap();
    assert_eq!(ymd(&d), (2024, 6, 1));
    assert!(period_date(&some("  ")).is_none());
    assert!(period_date(&some("June")).is_none());
    assert!(period_date(&None).is_none());
}

#[test]
fn new_tuition_row_defaults() {
    let p = fee_form();
    let row = new_fee_row(&FeeKind::Tuition, "tuition", &p, s("R-1")).unwrap();
    assert_eq!(row.fee_type, "tuition");
    assert_eq!(row.room, "—");
    assert_eq!(row.bus_route, "—");
    assert_eq!(row.receipt_book_no, "—");
    assert_eq!(row.utr_no, "—");
    assert_eq!(row.payment_mode, "Online");
    assert_eq!(row.remarks, some("—"));
    assert_eq!(ymd(&row.receipt_date), (2024, 4, 1));
    assert_eq!(ymd(&row.payment_date), (2024, 4, 2));
    assert_eq!(row.duration, None);
}

#[test]
fn new_transport_and_library_rows() {
    let mut p = fee_form();
    p.room = some("A-1");
    p.bus_route = some("North");
    p.start_date = some("2024-06-01");
    p.end_date = some("");
    let row = new_fee_row(&FeeKind::Transport, "transport", &p, s("TR-1")).unwrap();
    assert_eq!(row.room, "—");
    assert_eq!(row.bus_route, "North");
    assert_eq!(row.bus_no, "—");
    assert_eq!(row.duration, Some(1));
    assert_eq!(ymd(&row.start_date.unwrap()), (2024, 6, 1));
    assert!(row.end_date.is_none());
    let p = fee_form();
    let row = new_fee_row(&FeeKind::Library, "library", &p, s("LIB-1")).unwrap();
    assert_eq!(row.room, "Library Fine");
    assert_eq!(row.fee_type, "library");
}

#[test]
fn new_row_date_errors() {
    let mut p = fee_form();
    p.receipt_date = s("bad");
    p.payment_date = s("bad");
    assert_eq!(
        bad(new_fee_row(&FeeKind::Hostel, "hostel", &p, s("R")).unwrap_err()),
        "Invalid receipt date format"
    );
    let mut p = fee_form();
    p.payment_date = s("2024-04-31");
    assert_eq!(
        bad(new_fee_row(&FeeKind::Hostel, "hostel", &p, s("R")).unwrap_err()),
        "Invalid payment date format"
    );
}

#[test]
fn collection_plans() {
    let p = fee_form();
    let e = plan_collection("tuition", &p, false, s("R-1"), false).unwrap_err();
    assert_eq!(missing(e), "Student with ID STU-100 is not registered");
    let e = plan_collection("tuition", &p, true, s("R-1"), true).unwrap_err();
    assert_eq!(clash(e), "Receipt No. R-1 has already been logged");
    let plan = plan_collection("hostel", &p, false, s("R-1"), true).unwrap();
    assert!(matches!(plan.kind, FeeKind::Hostel));
    assert!(matches!(plan.write, ReceiptWrite::Overwrite));
    assert_eq!(plan.row.fee_type, "hostel");
    let plan = plan_collection("exam", &p, true, s("R-2"), false).unwrap();
    assert!(matches!(plan.kind, FeeKind::Tuition));
    assert_eq!(plan.row.fee_type, "exam");
    assert_eq!(plan.row.receipt_no, "R-2");
}

#[test]
fn update_reference_checks() {
    let mut u = fee_change();
    u.student_id = some("STU-7");
    assert_eq!(
        missing(check_update_refs(&u, false, false).unwrap_err()),
        "Student with ID STU-7 is not registered"
    );
    let mut u = fee_change();
    u.receipt_no = some("R-2");
    assert_eq!(
        clash(check_update_refs(&u, false, true).unwrap_err()),
        "Receipt No. is already assigned to another record"
    );
    u.receipt_no = some("—");
    assert!(check_update_refs(&u, false, true).is_ok());
}

#[test]
fn tuition_update_applies_fields() {
    let mut u = fee_change();
    u.room = some("B-2");
    u.remarks = some("late");
    u.payment_date = some("2024-03-03");
    let x = tuition_update(stored_row(), &u, true, false).unwrap();
    assert_eq!(x.room, "B-2");
    assert_eq!(x.remarks, some("late"));
    assert_eq!(x.bus_route, "—");
    assert_eq!(x.bus_no, "—");
    assert_eq!(x.receipt_no, "R-1");
    assert_eq!(ymd(&x.receipt_date), (2024, 1, 5));
    assert_eq!(ymd(&x.payment_date), (2024, 3, 3));
    let mut u = fee_change();
    u.receipt_date = some("soon");
    assert_eq!(
        bad(tuition_update(stored_row(), &u, true, false).unwrap_err()),
        "Invalid receipt date format"
    );
}

#[test]
fn transport_update_periods() {
    let mut u = fee_change();
    u.start_date = some("  ");
    u.end_date = some("2024-12-31");
    u.duration = Some(6);
    u.room = some("ignored");
    let x = transport_update_fields(stored_row(), &u, true, false).unwrap();
    assert!(x.start_date.is_none());
    assert_eq!(ymd(&x.end_date.unwrap()), (2024, 12, 31));
    assert_eq!(x.duration, Some(6));
    assert_eq!(x.room, "—");
    assert_eq!(x.fee_type, "transport");
    assert_eq!(x.bus_route, "Route 9");
    let mut u = fee_change();
    u.start_date = some("2024/01/01");
    assert_eq!(
        bad(transport_update_fields(stored_row(), &u, true, false).unwrap_err()),
        "Invalid start_date format"
    );
    let mut u = fee_change();
    u.end_date = some("x");
    assert_eq!(
        bad(transport_update_fields(stored_row(), &u, true, false).unwrap_err()),
        "Invalid end_date format"
    );
}

#[test]
fn hostel_update_merges() {
    let mut u = fee_change();
    u.room = some("H-12");
    u.receipt_no = some("ignored");
    u.fee_type = some("transport");
    let x = hostel_update(stored_row(), &u).unwrap();
    assert_eq!(x.room, "H-12");
    assert_eq!(x.receipt_no, "R-1");
    assert_eq!(x.fee_type, "tuition");
    let y = hostel_update(x, &u).unwrap();
    assert_eq!(y.room, "H-12");
    assert_eq!(y.receipt_no, "R-1");
    let mut u = fee_change();
    u.payment_date = some("2024-02-30");
    assert_eq!(bad(hostel_update(stored_row(), &u).unwrap_err()), "Invalid payment date format");
}

#[test]
fn empty_hostel_update_keeps_record() {
    let x = hostel_update(stored_row(), &fee_change()).unwrap();
    let old = stored_row();
    assert_eq!(x.student_id, old.student_id);
    assert_eq!(x.room, old.room);
    assert_eq!(x.payment_mode, old.payment_mode);
    assert_eq!(ymd(&x.receipt_date), ymd(&old.receipt_date));
}

#[test]
fn change_routes() {
    assert!(matches!(fee_change_route(true, &None), Ok(FeeChangeRoute::LibraryFine)));
    assert_eq!(missing(fee_change_route(false, &None).unwrap_err()), "Fee record not found");
    assert!(matches!(fee_change_route(false, &some("transport")), Ok(FeeChangeRoute::Transport)));
    assert!(matches!(fee_change_route(false, &some("hostel")), Ok(FeeChangeRoute::Hostel)));
    assert!(matches!(fee_change_route(false, &some("library")), Ok(FeeChangeRoute::Tuition)));
    assert!(reopens_fines("library"));
    assert!(!reopens_fines("tuition"));
}

#[test]
fn update_targets() {
    let id = "67e55044-10b1-426f-9247-bb680e5fe0c8";
    match update_target(id, &None).unwrap() {
        UpdateTarget::ById(x) => assert_eq!(x, id),
        _ => panic!("expected the id itself"),
    }
    match update_target("hostel", &some(id)).unwrap() {
        UpdateTarget::Typed(route, x) => {
            assert!(matches!(route, FeeChangeRoute::Hostel));
            assert_eq!(x, id);
        },
        _ => panic!("expected a typed target"),
    }
    assert_eq!(bad(update_target("transport", &None).unwrap_err()), "ID is required");
}

#[test]
fn fine_payments() {
    let today = CalDate { year: 2024, month: 5, day: 20 };
    let mut u = fee_change();
    u.due_fees = Some(AmountSign::Positive);
    u.receipt_date = some("nonsense");
    let f = fine_payment(&u, some("STU-REG"), today, 1716200000);
    assert!(!f.fine_paid);
    assert_eq!(f.issue_remarks, "Paid");
    assert_eq!(f.row.student_id, "STU-REG");
    assert_eq!(f.row.payment_mode, "Cash");
    assert_eq!(f.row.receipt_no, "LIB-1716200000");
    assert_eq!(f.row.room, "Library Fine");
    assert_eq!(f.row.remarks, some("—"));
    assert_eq!(ymd(&f.row.receipt_date), (2024, 5, 20));
    let mut u = fee_change();
    u.payment_mode = some("Waived");
    u.due_fees = Some(AmountSign::Positive);
    u.student_id = some("STU-9");
    u.remarks = some("ok");
    let f = fine_payment(&u, None, today, 1);
    assert!(f.fine_paid);
    assert_eq!(f.issue_remarks, "Waived");
    assert_eq!(f.row.student_id, "STU-9");
    assert_eq!(f.row.remarks, some("ok"));
    let f = fine_payment(&fee_change(), None, today, 1);
    assert!(f.fine_paid);
    assert_eq!(f.row.student_id, "");
}

#[test]
fn fine_payment_stamped_now() {
    let mut u = fee_change();
    u.receipt_no = some("R-55");
    let f = fine_payment_now(&u, None);
    assert_eq!(f.row.receipt_no, "R-55");
    assert_eq!(f.row.fee_type, "library");
}

#[test]
fn handler_expense_entries() {
    let today = CalDate { year: 2024, month: 7, day: 1 };
    let mut p = expense_form();
    p.date = some("");
    let x = expense_entry(&p, today, 1234);
    assert_eq!(x.ref_no, "EXP-1234");
    assert_eq!(x.voucher_no, some("EXP-1234"));
    assert_eq!(x.description, "  Printer ink ");
    assert_eq!(ymd(&x.date), (2024, 7, 1));
    assert_eq!(x.payment_mode, "Online");
    assert_eq!(x.party_name, some("—"));
    assert_eq!(x.category, None);
    let mut p = expense_form();
    p.voucher_no = some("V-9");
    p.date = some("2024-06-15");
    let x = expense_entry(&p, today, 5000);
    assert_eq!(x.ref_no, "V-9");
    assert_eq!(ymd(&x.date), (2024, 6, 15));
}

#[test]
fn random_voucher_in_range() {
    let x = new_expense_entry(&expense_form());
    assert!(x.ref_no.starts_with("EXP-"));
    let n: u32 = x.ref_no[4..].parse().unwrap();
    assert!((1000..10000).contains(&n));
}

#[test]
fn expense_references() {
    assert_eq!(ref_no_from("1b4e28ba-2fa1-11d2-883f-0016d3cca427"), "EXP-1B4E28BA");
    let r = fresh_ref_no();
    assert_eq!(r.len(), 12);
    assert!(r.starts_with("EXP-"));
    assert!(r[4..].chars().all(|c| c.is_ascii_digit() || ('A'..='F').contains(&c)));
}

#[test]
fn service_expense_entries() {
    let today = CalDate { year: 2024, month: 7, day: 1 };
    let x = service_expense_entry(&expense_form(), s("EXP-ABC"), today).unwrap();
    assert_eq!(x.ref_no, "EXP-ABC");
    assert_eq!(x.description, "Printer ink");
    assert_eq!(x.category, some("general"));
    assert_eq!(x.party_name, None);
    assert_eq!(ymd(&x.date), (2024, 7, 1));
    let mut p = expense_form();
    p.amount = AmountSign::Negative;
    assert_eq!(
        bad(service_expense_entry(&p, s("E"), today).unwrap_err()),
        "amount must be greater than 0"
    );
}

#[test]
fn expense_updates() {
    let mut u = expense_change();
    u.description = some("Diesel");
    u.date = some("2024-03-01");
    u.remarks = some("April");
    let x = expense_edit(stored_expense(), &u);
    assert_eq!(x.description, "Diesel");
    assert_eq!(ymd(&x.date), (2024, 3, 1));
    assert_eq!(x.remarks, some("April"));
    assert_eq!(x.ref_no, "EXP-1");
    let y = expense_update(x, &u);
    assert_eq!(y.description, "Diesel");
    assert_eq!(ymd(&y.date), (2024, 3, 1));
    let mut u = expense_change();
    u.date = some("31-12-2024");
    let x = expense_update(stored_expense(), &u);
    assert_eq!(ymd(&x.date), (2024, 2, 10));
}

#[test]
fn service_collection_path() {
    assert!(matches!(service_fee_kind("library"), FeeKind::Tuition));
    assert!(matches!(service_fee_kind("hostel"), FeeKind::Hostel));
    let p = fee_form();
    let plan = plan_collection_for(&service_fee_kind("library"), "library", &p, true, s("R-3"), false).unwrap();
    assert!(matches!(plan.kind, FeeKind::Tuition));
    assert_eq!(plan.row.fee_type, "library");
    assert_eq!(plan.row.room, "—");
    let e = plan_collection_for(&FeeKind::Transport, "transport", &p, true, s("R-3"), true).unwrap_err();
    assert!(bad(e).starts_with("Receipt No. 'R-3' already exists"));
}

#[test]
fn service_expense_entry_stamped_now() {
    let x = service_expense_entry_now(&expense_form()).unwrap();
    assert!(x.ref_no.starts_with("EXP-"));
    assert_eq!(x.ref_no.len(), 12);
    assert_eq!(x.description, "Printer ink");
    let mut p = expense_form();
    p.description = String::new();
    assert!(service_expense_entry_now(&p).is_err());
}

#[test]
fn receipt_and_registry_lookups() {
    assert!(receipt_lookup_needed(&FeeKind::Tuition, "R-9", true));
    assert!(!receipt_lookup_needed(&FeeKind::Tuition, "R-9", false));
    assert!(!receipt_lookup_needed(&FeeKind::Tuition, "—", true));
    assert!(receipt_lookup_needed(&FeeKind::Hostel, "", false));
    assert!(receipt_lookup_needed(&FeeKind::Library, "", true));
    assert!(!registry_lookup_needed(&FeeKind::Library));
    assert!(registry_lookup_needed(&FeeKind::Transport));
}

#[test]
fn registry_preparation() {
    let p = fee_form();
    let lib = student_prep(&FeeKind::Library, &p, true, None);
    assert_eq!(lib.ensure_class, some("B.Sc. Nursing 1st Year"));
    let st = lib.placeholder.expect("a placeholder");
    assert_eq!((st.name.as_str(), st.class_name.as_str()), ("Student STU-100", "B.Sc. Nursing 1st Year"));
    let hostel = student_prep(&FeeKind::Hostel, &p, false, None);
    assert_eq!(hostel.ensure_class, some("B.Sc. Nursing 1st Year"));
    assert!(hostel.placeholder.is_some());
    assert!(needs_first_class(&FeeKind::Transport, false));
    assert!(!needs_first_class(&FeeKind::Transport, true));
    let transport = student_prep(&FeeKind::Transport, &p, false, some("GNM 1"));
    assert_eq!(transport.ensure_class, None);
    assert_eq!(transport.placeholder.expect("a placeholder").class_name, "GNM 1");
    let transport = student_prep(&FeeKind::Transport, &p, false, None);
    assert_eq!(transport.placeholder.expect("a placeholder").class_name, "CLASS 8");
    let none = student_prep(&FeeKind::Tuition, &p, false, None);
    assert!(none.ensure_class.is_none() && none.placeholder.is_none());
    assert!(student_prep(&FeeKind::Hostel, &p, true, None).placeholder.is_none());
}

#[test]
fn deletions_by_route() {
    let h = fee_deletion(&FeeChangeRoute::Hostel);
    assert!(h.hostel_only);
    match h.when_missing {
        MissingDelete::Refuse(e) => assert_eq!(missing(e), "Hostel fee record not found"),
        _ => panic!("expected a refusal"),
    }
    assert!(matches!(fee_deletion(&FeeChangeRoute::Transport).when_missing, MissingDelete::StoreNoRow));
    match fee_deletion(&FeeChangeRoute::Tuition).when_missing {
        MissingDelete::Refuse(e) => assert_eq!(missing(e), "Fee record not found"),
        _ => panic!("expected a refusal"),
    }
}
