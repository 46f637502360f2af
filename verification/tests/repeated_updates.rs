use pratibha_erp::dates::CalDate;
use pratibha_erp::fees::{
    expense_update, hostel_update, transport_update_fields, tuition_update, ExpenseRow, FeeRow,
    UpdateExpensePayload, UpdateFeeRecordPayload,
};
use pratibha_erp::hostel::{update_resident_record, update_room_record, ResidentRow, ResidentUpdate, RoomRecord, RoomUpdate};
use pratibha_erp::inventory::{update_item_record, ItemRecord, ItemUpdate};
use pratibha_erp::members::{member_update, MemberRow, UpdateMemberPayload};
use pratibha_erp::transport::{
    transport_expense_update, transport_student_update, update_vehicle_record, TransportExpenseRow,
    TransportExpenseUpdate, TransportStudentDraft, TransportStudentUpdate, VehicleRecord, VehicleUpdate,
};

fn s(t: &str) -> String {
    t.to_string()
}

fn some(t: &str) -> Option<String> {
    Some(t.to_string())
}

fn shown<T: std::fmt::Debug>(x: &T) -> String {
    format!("{:?}", x)
}

fn stored_fee() -> FeeRow {
    FeeRow {
        student_id: s("STU-1"),
        fee_type: s("tuition"),
        room: s("—"),
        bus_route: s("Route 9"),
        bus_no: s("KA-01"),
        receipt_book_no: s("B1"),
        receipt_no: s("R-1"),
        receipt_date: CalDate { year: 2024, month: 1, day: 5 },
        payment_date: CalDate { year: 2024, month: 1, day: 6 },
        utr_no: s("—"),
        payment_mode: s("Cash"),
        remarks: None,
        duration: Some(3),
        start_date: Some(CalDate { year: 2024, month: 1, day: 1 }),
        end_date: None,
    }
}

fn fee_change() -> UpdateFeeRecordPayload {
    UpdateFeeRecordPayload {
        id: None,
        student_id: some("STU-2"),
        student_name: None,
        class_name: None,
        course_name: None,
        fee_type: None,
        room: some("A-4"),
        bus_route: some("Route 2"),
        bus_no: None,
        receipt_book_no: None,
        receipt_no: None,
        receipt_date: some("2024-05-01"),
        payment_date: None,
        amount: None,
        utr_no: some("UTR-9"),
        payment_mode: None,
        due_fees: None,
        remarks: some("second term"),
        discount: None,
        duration: Some(6),
        start_date: some(" "),
        end_date: some("2024-12-31"),
    }
}

#[test]
fn tuition_update_twice_is_once() {
    let u = fee_change();
    let x = tuition_update(stored_fee(), &u, true, false).expect("an update");
    let once = shown(&x);
    let y = tuition_update(x, &u, true, false).expect("an update");
    assert_eq!(shown(&y), once);
    assert_eq!(y.bus_route, "—");
    assert_eq!((y.receipt_date.year, y.receipt_date.month, y.receipt_date.day), (2024, 5, 1));
}

#[test]
fn transport_update_twice_is_once() {
    let u = fee_change();
    let x = transport_update_fields(stored_fee(), &u, true, false).expect("an update");
    let once = shown(&x);
    assert!(x.start_date.is_none());
    let y = transport_update_fields(x, &u, true, false).expect("an update");
    assert_eq!(shown(&y), once);
    assert_eq!(y.duration, Some(6));
}

#[test]
fn hostel_update_twice_is_once() {
    let u = fee_change();
    let x = hostel_update(stored_fee(), &u).expect("an update");
    let once = shown(&x);
    let y = hostel_update(x, &u).expect("an update");
    assert_eq!(shown(&y), once);
    assert_eq!(y.room, "A-4");
}

#[test]
fn expense_update_twice_is_once() {
    let old = ExpenseRow {
        ref_no: s("EXP-1"),
        description: s("Chalk"),
        category: None,
        date: CalDate { year: 2024, month: 2, day: 2 },
        payment_mode: s("Cash"),
        remarks: None,
        utr: None,
        receipt: None,
        party_name: None,
        spent_by: None,
        voucher_no: some("V-1"),
    };
    let u = UpdateExpensePayload {
        description: some("Chalk and dusters"),
        amount: None,
        category: some("Stationery"),
        date: some("not a date"),
        payment_mode: None,
        remarks: None,
        utr: None,
        receipt: None,
        party_name: some("Shop"),
        spent_by: None,
        voucher_no: None,
    };
    let x = expense_update(old, &u);
    let once = shown(&x);
    let y = expense_update(x, &u);
    assert_eq!(shown(&y), once);
    assert_eq!((y.date.year, y.date.month, y.date.day), (2024, 2, 2));
}

#[test]
fn room_and_resident_updates_twice_are_once() {
    let old = RoomRecord { room_no: s("A-1"), block: s("A"), floor: s("1"), capacity: 2, room_type: s("AC"), status: s("full"), remarks: None };
    let u = RoomUpdate { room_no: some(" c-3 "), block: some(" C "), floor: None, capacity: Some(3), room_type: None, status: None, remarks: some("x") };
    let x = update_room_record(old, u);
    let once = shown(&x);
    let u = RoomUpdate { room_no: some(" c-3 "), block: some(" C "), floor: None, capacity: Some(3), room_type: None, status: None, remarks: some("x") };
    let y = update_room_record(x, u);
    assert_eq!(shown(&y), once);

    let old = ResidentRow {
        student_id: s("STU-1"),
        room_no: s("A-1"),
        bed_no: None,
        check_in_date: None,
        status: s("active"),
        emergency_contact: None,
        remarks: None,
    };
    let u = ResidentUpdate { room_no: some("b-4"), bed_no: some("Bed 3"), check_in_date: some("2024-06-01"), status: None, emergency_contact: None, remarks: None };
    let x = update_resident_record(old, &u);
    let once = shown(&x);
    let y = update_resident_record(x, &u);
    assert_eq!(shown(&y), once);
}

#[test]
fn item_member_and_vehicle_updates_twice_are_once() {
    let old = ItemRecord { name: s(" Gloves "), required_qty: 0, available_qty: 10, low_stock_threshold: 5, unit: s("pcs"), description: None };
    let x = update_item_record(old, ItemUpdate { name: None, required_qty: Some(4), available_qty: None, low_stock_threshold: None, unit: None, description: None });
    let once = shown(&x);
    assert_eq!(x.name, "Gloves");
    let y = update_item_record(x, ItemUpdate { name: None, required_qty: Some(4), available_qty: None, low_stock_threshold: None, unit: None, description: None });
    assert_eq!(shown(&y), once);

    let u = UpdateMemberPayload { name: some("Asha R"), class: None, phone: some("99"), status: None };
    let x = member_update(MemberRow { name: s("Asha"), class: None, phone: None, status: s("active") }, &u);
    let once = shown(&x);
    assert_eq!(shown(&member_update(x, &u)), once);

    let old = VehicleRecord { reg_no: s("KA01"), vehicle_type: s("Bus"), capacity: 40, driver: s("Raju"), route: s("North"), status: s("active"), remarks: s("—") };
    let change = || VehicleUpdate { reg_no: some(" ka 02 "), vehicle_type: None, capacity: Some(30), driver: None, route: None, status: None, remarks: None };
    let x = update_vehicle_record(old, change(), false).expect("an update");
    let once = shown(&x);
    assert_eq!(x.reg_no, "KA 02");
    let y = update_vehicle_record(x, change(), false).expect("an update");
    assert_eq!(shown(&y), once);
}

#[test]
fn vehicle_expense_and_student_updates_twice_are_once() {
    let old = TransportExpenseRow {
        date: CalDate { year: 2024, month: 4, day: 10 },
        vehicle_no: s("KA 01"),
        type_val: s("Fuel"),
        vendor: s("HP"),
        payment_mode: s("Cash"),
        remarks: None,
        utr_no: s("—"),
    };
    let u = TransportExpenseUpdate { date: some("2024-05-01"), vehicle_no: some("ka 02"), type_val: None, vendor: some("IOC"), payment_mode: None, remarks: None, utr_no: None };
    let x = transport_expense_update(old, &u, true).expect("an update");
    let once = shown(&x);
    let y = transport_expense_update(x, &u, true).expect("an update");
    assert_eq!(shown(&y), once);

    let old = TransportStudentDraft { student_id: s("STU-1"), vehicle_no: some("KA 01"), route: None, pickup_point: None, status: None, remarks: None };
    let u = TransportStudentUpdate { vehicle_no: some("ka 05"), route: some("East"), pickup_point: None, status: None, remarks: None };
    let x = transport_student_update(old, &u, true).expect("an update");
    let once = shown(&x);
    let y = transport_student_update(x, &u, true).expect("an update");
    assert_eq!(shown(&y), once);
}
