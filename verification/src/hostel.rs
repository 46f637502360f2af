use vstd::prelude::*;
use crate::dates::{date_input_spec, read_date, today, CalDate, DateInput};
use crate::errors::{bad_request, not_found, AppError};
use crate::filters::{chosen, is_chosen, pieces2, pieces5, pieces4, push_filter};
use crate::query::{
    build_query, filters_view, opt_filter, query_sql_spec, search_spec, search_term,
    strings_view, values_spec, Filter, FilterView, SqlQuery,
};
use crate::sms::opt_view;
use crate::sql_text::{HOSTEL_STUDENTS_SQL, ROOMS_SQL};
use crate::text::{is_blank, trim, trim_spec, to_upper, uppercase_of};

verus! {

/// Query parameters of the hostel resident listing.
#[derive(Debug)]
pub struct GetHostelStudentsQuery {
    pub search: Option<String>,
    pub room_no: Option<String>,
    pub block: Option<String>,
    pub status: Option<String>,
    pub class_name: Option<String>,
    pub page: Option<i64>,
    pub limit: Option<i64>,
}

/// Query parameters of the hostel room listing.
#[derive(Debug)]
pub struct GetHostelRoomsQuery {
    pub search: Option<String>,
    pub block: Option<String>,
    pub room_type: Option<String>,
    pub status: Option<String>,
}

/// The filters of the hostel room listing.
pub open spec fn room_filters(q: GetHostelRoomsQuery) -> Seq<FilterView> {
    opt_filter(
        q.search is Some,
        seq![" AND (hr.room_no ILIKE "@, " OR hr.block ILIKE "@, " OR hr.floor ILIKE "@, ")"@],
        search_spec(q.search->0@, true),
    ) + opt_filter(chosen(q.block, "All Blocks"@), seq![" AND hr.block = "@, ""@], q.block->0@)
        + opt_filter(
        chosen(q.room_type, "All Types"@),
        seq![" AND hr.room_type = "@, ""@],
        q.room_type->0@,
    ) + opt_filter(chosen(q.status, "All Statuses"@), seq![" AND hr.status = "@, ""@], q.status->0@)
}

/// The hostel room listing query (not paged).
pub fn rooms_query(q: &GetHostelRoomsQuery) -> (r: SqlQuery)
    ensures
        r.sql@ == query_sql_spec(
            ROOMS_SQL@,
            0,
            room_filters(*q),
            " ORDER BY hr.block ASC, hr.room_no ASC"@,
            false,
        ),
        strings_view(r.binders@) == values_spec(room_filters(*q)),
{
    let mut fs: Vec<Filter> = Vec::new();
    if let Some(s) = &q.search {
        push_filter(
            &mut fs,
            pieces4(" AND (hr.room_no ILIKE ", " OR hr.block ILIKE ", " OR hr.floor ILIKE ", ")"),
            search_term(s.as_str(), true),
        );
    }
    if is_chosen(&q.block, "All Blocks") {
        let v = q.block.as_ref().unwrap().clone();
        push_filter(&mut fs, pieces2(" AND hr.block = ", ""), v);
    }
    if is_chosen(&q.room_type, "All Types") {
        let v = q.room_type.as_ref().unwrap().clone();
        push_filter(&mut fs, pieces2(" AND hr.room_type = ", ""), v);
    }
    if is_chosen(&q.status, "All Statuses") {
        let v = q.status.as_ref().unwrap().clone();
        push_filter(&mut fs, pieces2(" AND hr.status = ", ""), v);
    }
    assert(filters_view(fs@) =~= room_filters(*q));
    let r = build_query(ROOMS_SQL, Vec::new(), fs, " ORDER BY hr.block ASC, hr.room_no ASC", false);
    assert(strings_view(Seq::<String>::empty()) =~= Seq::<Seq<char>>::empty());
    assert(strings_view(r.binders@) =~= values_spec(room_filters(*q)));
    r
}

/// The filters of the hostel resident listing (the block is not a filter).
pub open spec fn resident_filters(q: GetHostelStudentsQuery) -> Seq<FilterView> {
    opt_filter(
        q.search is Some,
        seq![
            " AND (COALESCE(s.name, '') ILIKE "@,
            " OR hs.student_id ILIKE "@,
            " OR hs.room_no ILIKE "@,
            " OR COALESCE(hs.bed_no, '') ILIKE "@,
            ")"@,
        ],
        search_spec(q.search->0@, true),
    ) + opt_filter(chosen(q.room_no, "All Rooms"@), seq![" AND hs.room_no = "@, ""@], q.room_no->0@)
        + opt_filter(
        chosen(q.status, "All Statuses"@),
        seq![" AND hs.status = "@, ""@],
        q.status->0@,
    ) + opt_filter(
        chosen(q.class_name, "All Classes"@),
        seq![" AND COALESCE(s.class_name, '') = "@, ""@],
        q.class_name->0@,
    )
}

/// The hostel resident listing query (paged).
pub fn residents_query(q: &GetHostelStudentsQuery) -> (r: SqlQuery)
    ensures
        r.sql@ == query_sql_spec(
            HOSTEL_STUDENTS_SQL@,
            0,
            resident_filters(*q),
            " ORDER BY COALESCE(s.name, hs.student_id) ASC"@,
            true,
        ),
        strings_view(r.binders@) == values_spec(resident_filters(*q)),
{
    let mut fs: Vec<Filter> = Vec::new();
    if let Some(s) = &q.search {
        push_filter(
            &mut fs,
            pieces5(
                " AND (COALESCE(s.name, '') ILIKE ",
                " OR hs.student_id ILIKE ",
                " OR hs.room_no ILIKE ",
                " OR COALESCE(hs.bed_no, '') ILIKE ",
                ")",
            ),
            search_term(s.as_str(), true),
        );
    }
    if is_chosen(&q.room_no, "All Rooms") {
        let v = q.room_no.as_ref().unwrap().clone();
        push_filter(&mut fs, pieces2(" AND hs.room_no = ", ""), v);
    }
    if is_chosen(&q.status, "All Statuses") {
        let v = q.status.as_ref().unwrap().clone();
        push_filter(&mut fs, pieces2(" AND hs.status = ", ""), v);
    }
    if is_chosen(&q.class_name, "All Classes") {
        let v = q.class_name.as_ref().unwrap().clone();
        push_filter(&mut fs, pieces2(" AND COALESCE(s.class_name, '') = ", ""), v);
    }
    assert(filters_view(fs@) =~= resident_filters(*q));
    let r = build_query(
        HOSTEL_STUDENTS_SQL,
        Vec::new(),
        fs,
        " ORDER BY COALESCE(s.name, hs.student_id) ASC",
        true,
    );
    assert(strings_view(Seq::<String>::empty()) =~= Seq::<Seq<char>>::empty());
    assert(strings_view(r.binders@) =~= values_spec(resident_filters(*q)));
    r
}

/// The text fields of a new or re-registered hostel room (its fee is
/// handled with the record's amounts).
#[derive(Debug)]
pub struct RoomDraft {
    pub room_no: String,
    pub block: String,
    pub floor: Option<String>,
    pub capacity: Option<i32>,
    pub room_type: Option<String>,
    pub status: Option<String>,
    pub remarks: Option<String>,
}

/// The stored fields of a hostel room, apart from its fee.
#[derive(Debug)]
pub struct RoomRecord {
    pub room_no: String,
    pub block: String,
    pub floor: String,
    pub capacity: i32,
    pub room_type: String,
    pub status: String,
    pub remarks: Option<String>,
}

/// A text field, or its default when not given.
pub open spec fn text_or(field: Option<String>, default: Seq<char>) -> Seq<char> {
    match field {
        Some(t) => t@,
        None => default,
    }
}

/// A text field or its default.
pub fn text_or_default(field: &Option<String>, default: &'static str) -> (r: String)
    ensures
        r@ == text_or(*field, default@),
{
    match field {
        Some(t) => t.clone(),
        None => String::from_str(default),
    }
}

/// A room number as stored: trimmed and upper-cased.
pub open spec fn room_no_spec(s: Seq<char>) -> Seq<char> {
    uppercase_of(trim_spec(s))
}

/// Normalises a room number.
pub fn normalize_room_no(s: &str) -> (r: String)
    ensures
        r@ == room_no_spec(s@),
{
    to_upper(trim(s))
}

/// Checks and completes a room registration: room number and block are
/// required; the room number is trimmed and upper-cased, the block
/// trimmed; floor, capacity, type, status and remarks default to
/// `Ground Floor`, 4, `Non-AC`, `available` and `—`.
pub fn room_registration(d: &RoomDraft) -> (r: Result<RoomRecord, AppError>)
    ensures
        trim_spec(d.room_no@).len() == 0 ==> (r matches Err(e) && e.is_bad_request(
            "Room number is required"@,
        )),
        trim_spec(d.room_no@).len() != 0 && trim_spec(d.block@).len() == 0 ==> (r matches Err(e)
            && e.is_bad_request("Block name is required"@)),
        trim_spec(d.room_no@).len() != 0 && trim_spec(d.block@).len() != 0 ==> (r matches Ok(x) && {
            &&& x.room_no@ == room_no_spec(d.room_no@)
            &&& x.block@ == trim_spec(d.block@)
            &&& x.floor@ == text_or(d.floor, "Ground Floor"@)
            &&& x.capacity == (match d.capacity {
                Some(c) => c,
                None => 4,
            })
            &&& x.room_type@ == text_or(d.room_type, "Non-AC"@)
            &&& x.status@ == text_or(d.status, "available"@)
            &&& x.remarks matches Some(m) && m@ == text_or(d.remarks, "—"@)
        }),
{
    if is_blank(d.room_no.as_str()) {
        return Err(bad_request("Room number is required"));
    }
    if is_blank(d.block.as_str()) {
        return Err(bad_request("Block name is required"));
    }
    Ok(RoomRecord {
        room_no: normalize_room_no(d.room_no.as_str()),
        block: String::from_str(trim(d.block.as_str())),
        floor: text_or_default(&d.floor, "Ground Floor"),
        capacity: match d.capacity {
            Some(c) => c,
            None => 4,
        },
        room_type: text_or_default(&d.room_type, "Non-AC"),
        status: text_or_default(&d.status, "available"),
        remarks: Some(text_or_default(&d.remarks, "—")),
    })
}

/// A partial change of a room's stored fields.
#[derive(Debug)]
pub struct RoomUpdate {
    pub room_no: Option<String>,
    pub block: Option<String>,
    pub floor: Option<String>,
    pub capacity: Option<i32>,
    pub room_type: Option<String>,
    pub status: Option<String>,
    pub remarks: Option<String>,
}

/// An optional replacement of a text field, transformed when given.
pub open spec fn replaced(old: Seq<char>, new: Option<String>, f: spec_fn(Seq<char>) -> Seq<char>) -> Seq<
    char,
> {
    match new {
        Some(t) => f(t@),
        None => old,
    }
}

/// Whether a room is the stored one with an update put in: the room number
/// normalised, block and floor trimmed, the other given fields as given.
pub open spec fn room_updated(old: RoomRecord, u: RoomUpdate, r: RoomRecord) -> bool {
    &&& r.room_no@ == replaced(old.room_no@, u.room_no, |t: Seq<char>| room_no_spec(t))
    &&& r.block@ == replaced(old.block@, u.block, |t: Seq<char>| trim_spec(t))
    &&& r.floor@ == replaced(old.floor@, u.floor, |t: Seq<char>| trim_spec(t))
    &&& r.capacity == (match u.capacity {
        Some(c) => c,
        None => old.capacity,
    })
    &&& r.room_type@ == replaced(old.room_type@, u.room_type, |t: Seq<char>| t)
    &&& r.status@ == replaced(old.status@, u.status, |t: Seq<char>| t)
    &&& opt_view(r.remarks) == (match u.remarks {
        Some(t) => Some(t@),
        None => opt_view(old.remarks),
    })
}

/// Applies a partial update to a room's stored fields.
pub fn update_room_record(old: RoomRecord, u: RoomUpdate) -> (r: RoomRecord)
    ensures
        room_updated(old, u, r),
{
    let mut r = old;
    if let Some(rn) = &u.room_no {
        r.room_no = normalize_room_no(rn.as_str());
    }
    if let Some(b) = &u.block {
        r.block = String::from_str(trim(b.as_str()));
    }
    if let Some(f) = &u.floor {
        r.floor = String::from_str(trim(f.as_str()));
    }
    if let Some(c) = u.capacity {
        r.capacity = c;
    }
    if let Some(t) = u.room_type {
        r.room_type = t;
    }
    if let Some(s) = u.status {
        r.status = s;
    }
    if let Some(m) = u.remarks {
        r.remarks = Some(m);
    }
    r
}

/// An update that gives no field changes nothing: the stored room stays
/// as it was.
pub proof fn law_empty_room_update_keeps_room(old: RoomRecord, u: RoomUpdate, x: RoomRecord)
    requires
        u.room_no is None,
        u.block is None,
        u.floor is None,
        u.capacity is None,
        u.room_type is None,
        u.status is None,
        u.remarks is None,
        room_updated(old, u, x),
    ensures
        x.room_no@ == old.room_no@,
        x.block@ == old.block@,
        x.floor@ == old.floor@,
        x.capacity == old.capacity,
        x.room_type@ == old.room_type@,
        x.status@ == old.status@,
        opt_view(x.remarks) == opt_view(old.remarks),
{
}

/// Repeating a room update changes nothing more: a given field is
/// normalised from the update itself, not from the stored value.
pub proof fn law_room_update_idempotent(old: RoomRecord, u: RoomUpdate, x: RoomRecord, y: RoomRecord)
    requires
        room_updated(old, u, x),
        room_updated(x, u, y),
    ensures
        y.room_no@ == x.room_no@,
        y.block@ == x.block@,
        y.floor@ == x.floor@,
        y.capacity == x.capacity,
        y.room_type@ == x.room_type@,
        y.status@ == x.status@,
        opt_view(y.remarks) == opt_view(x.remarks),
{
}

/// Each field that a room update gives replaces the stored one (the room
/// number normalised, block and floor trimmed), and each it leaves out
/// stays as stored.
pub proof fn law_room_update_replaces_given(old: RoomRecord, u: RoomUpdate, x: RoomRecord)
    requires
        room_updated(old, u, x),
    ensures
        u.room_no matches Some(t) ==> x.room_no@ == room_no_spec(t@),
        u.room_no is None ==> x.room_no@ == old.room_no@,
        u.block matches Some(t) ==> x.block@ == trim_spec(t@),
        u.block is None ==> x.block@ == old.block@,
        u.floor matches Some(t) ==> x.floor@ == trim_spec(t@),
        u.floor is None ==> x.floor@ == old.floor@,
        u.capacity matches Some(c) ==> x.capacity == c,
        u.capacity is None ==> x.capacity == old.capacity,
        u.room_type matches Some(t) ==> x.room_type@ == t@,
        u.room_type is None ==> x.room_type@ == old.room_type@,
        u.status matches Some(t) ==> x.status@ == t@,
        u.status is None ==> x.status@ == old.status@,
        u.remarks matches Some(t) ==> opt_view(x.remarks) == Some(t@),
        u.remarks is None ==> opt_view(x.remarks) == opt_view(old.remarks),
{
}

/// The outcome of a delete that reports the rows it removed: no row means
/// the record was not found.
pub fn require_removed(affected: u64, what: &str) -> (r: Result<(), AppError>)
    ensures
        affected == 0 ==> (r matches Err(e) && e.is_not_found(what@)),
        affected != 0 ==> r is Ok,
{
    if affected == 0 {
        Err(not_found(what))
    } else {
        Ok(())
    }
}

/// The text fields of a resident allocation request.
#[derive(Debug)]
pub struct ResidentDraft {
    pub student_id: String,
    pub room_no: String,
    pub bed_no: Option<String>,
    pub check_in_date: Option<String>,
    pub status: Option<String>,
    pub emergency_contact: Option<String>,
    pub remarks: Option<String>,
}

/// First check of an allocation, before any lookup: student id and room
/// number are required.
pub fn check_allocation(d: &ResidentDraft) -> (r: Result<(), AppError>)
    ensures
        trim_spec(d.student_id@).len() == 0 ==> (r matches Err(e) && e.is_bad_request(
            "Student ID is required"@,
        )),
        trim_spec(d.student_id@).len() != 0 && trim_spec(d.room_no@).len() == 0 ==> (r matches Err(e)
            && e.is_bad_request("Room number is required"@)),
        trim_spec(d.student_id@).len() != 0 && trim_spec(d.room_no@).len() != 0 ==> r is Ok,
{
    if is_blank(d.student_id.as_str()) {
        return Err(bad_request("Student ID is required"));
    }
    if is_blank(d.room_no.as_str()) {
        return Err(bad_request("Room number is required"));
    }
    Ok(())
}

/// The message for a room that is not in the room inventory.
pub open spec fn unknown_room_message(room_no: Seq<char>) -> Seq<char> {
    "Room '"@ + room_no
        + "' is not registered in hostel room inventory. Please select or register a valid room first."@
}

/// The stored fields of a resident allocation, apart from the fee.
#[derive(Debug)]
pub struct ResidentRecord {
    pub student_id: String,
    pub room_no: String,
    pub bed_no: String,
    pub check_in_date: CalDate,
    pub status: String,
    pub emergency_contact: String,
    pub remarks: String,
}

/// Whether a resident record is the allocation of a request: the
/// registry's spelling of the student id when there is one, else the
/// trimmed id; the normalised room number; bed, status, emergency contact
/// and remarks as given or `Bed 1`, `active`, `—` and `—`; the check-in
/// date as read, or `today` when it is no date.
pub open spec fn allocation_ok(
    d: ResidentDraft,
    master_student_id: Option<String>,
    check_in: DateInput,
    today: CalDate,
    x: ResidentRecord,
) -> bool {
    &&& x.student_id@ == (match master_student_id {
        Some(m) => m@,
        None => trim_spec(d.student_id@),
    })
    &&& x.room_no@ == room_no_spec(d.room_no@)
    &&& x.bed_no@ == text_or(d.bed_no, "Bed 1"@)
    &&& x.check_in_date == (match check_in {
        DateInput::Valid(c) => c,
        _ => today,
    })
    &&& x.status@ == text_or(d.status, "active"@)
    &&& x.emergency_contact@ == text_or(d.emergency_contact, "—"@)
    &&& x.remarks@ == text_or(d.remarks, "—"@)
}

/// Completes an allocation once the lookups are done: the student id is
/// the registry's spelling when the student is registered, else the
/// trimmed id; the room must exist; bed, status, emergency contact and
/// remarks default to `Bed 1`, `active`, `—` and `—`; a check-in date that
/// is not a date gives `today`.
pub fn allocation_record(
    d: &ResidentDraft,
    master_student_id: Option<String>,
    room_found: bool,
    check_in: DateInput,
    today: CalDate,
) -> (r: Result<ResidentRecord, AppError>)
    ensures
        !room_found ==> (r matches Err(e) && e.is_bad_request(
            unknown_room_message(room_no_spec(d.room_no@)),
        )),
        room_found ==> (r matches Ok(x) && allocation_ok(*d, master_student_id, check_in, today, x)),
{
    let room_no = normalize_room_no(d.room_no.as_str());
    if !room_found {
        let mut m = String::from_str("Room '");
        m.append(room_no.as_str());
        m.append(
            "' is not registered in hostel room inventory. Please select or register a valid room first.",
        );
        return Err(AppError::BadRequest(m));
    }
    let student_id = match master_student_id {
        Some(m) => m,
        None => String::from_str(trim(d.student_id.as_str())),
    };
    Ok(ResidentRecord {
        student_id,
        room_no,
        bed_no: text_or_default(&d.bed_no, "Bed 1"),
        check_in_date: match check_in {
            DateInput::Valid(c) => c,
            _ => today,
        },
        status: text_or_default(&d.status, "active"),
        emergency_contact: text_or_default(&d.emergency_contact, "—"),
        remarks: text_or_default(&d.remarks, "—"),
    })
}

/// An allocation of a room that exists stores what the request gives: the
/// normalised room number, and the bed, status, emergency contact and
/// remarks as given, each default (`Bed 1`, `active`, the dash) only where
/// the request gives none; the student id is the registry's spelling when
/// there is one, else the trimmed id; a check-in date that reads as a date
/// is kept, any other gives `today`.
pub proof fn law_allocation_keeps_request(
    d: ResidentDraft,
    master_student_id: Option<String>,
    check_in: DateInput,
    today: CalDate,
    x: ResidentRecord,
)
    requires
        allocation_ok(d, master_student_id, check_in, today, x),
    ensures
        master_student_id matches Some(m) ==> x.student_id@ == m@,
        master_student_id is None ==> x.student_id@ == trim_spec(d.student_id@),
        x.room_no@ == room_no_spec(d.room_no@),
        d.bed_no matches Some(t) ==> x.bed_no@ == t@,
        d.bed_no is None ==> x.bed_no@ == "Bed 1"@,
        d.status matches Some(t) ==> x.status@ == t@,
        d.status is None ==> x.status@ == "active"@,
        d.emergency_contact matches Some(t) ==> x.emergency_contact@ == t@,
        d.emergency_contact is None ==> x.emergency_contact@ == "—"@,
        d.remarks matches Some(t) ==> x.remarks@ == t@,
        d.remarks is None ==> x.remarks@ == "—"@,
        check_in matches DateInput::Valid(c) ==> x.check_in_date == c,
        !(check_in is Valid) ==> x.check_in_date == today,
{
}

/// `allocation_record` with today's date, the check-in date read from the
/// request.
pub fn allocation_record_now(d: &ResidentDraft, master_student_id: Option<String>, room_found: bool) -> (r:
    Result<ResidentRecord, AppError>)
    ensures
        !room_found ==> (r matches Err(e) && e.is_bad_request(
            unknown_room_message(room_no_spec(d.room_no@)),
        )),
        room_found ==> (r matches Ok(x) && exists|t: CalDate|
            1 <= t.month <= 12 && 1 <= t.day <= 31 && #[trigger] allocation_ok(
                *d,
                master_student_id,
                date_input_spec(opt_view(d.check_in_date), false),
                t,
                x,
            )),
{
    let t = today();
    let check_in = read_check_in(&d.check_in_date);
    allocation_record(d, master_student_id, room_found, check_in, t)
}

/// The check-in date field as an allocation reads it.
pub fn read_check_in(field: &Option<String>) -> (r: DateInput)
    ensures
        r == date_input_spec(opt_view(*field), false),
{
    read_date(field, false)
}

/// The stored fields of a hostel resident record, apart from the fee.
#[derive(Debug)]
pub struct ResidentRow {
    pub student_id: String,
    pub room_no: String,
    pub bed_no: Option<String>,
    pub check_in_date: Option<CalDate>,
    pub status: String,
    pub emergency_contact: Option<String>,
    pub remarks: Option<String>,
}

/// A partial change of a resident record, apart from the fee.
#[derive(Debug)]
pub struct ResidentUpdate {
    pub room_no: Option<String>,
    pub bed_no: Option<String>,
    pub check_in_date: Option<String>,
    pub status: Option<String>,
    pub emergency_contact: Option<String>,
    pub remarks: Option<String>,
}

/// An optional field after an optional replacement.
pub open spec fn opt_replaced(new: Option<String>, old: Option<String>) -> Option<Seq<char>> {
    match new {
        Some(t) => Some(t@),
        None => opt_view(old),
    }
}

/// Whether a resident record is the stored one with an update put in: the
/// room number normalised, the check-in date replaced only by a text that
/// reads as a date, the other given fields as given.
pub open spec fn resident_updated(old: ResidentRow, u: ResidentUpdate, x: ResidentRow) -> bool {
    &&& x.student_id@ == old.student_id@
    &&& x.room_no@ == replaced(old.room_no@, u.room_no, |t: Seq<char>| room_no_spec(t))
    &&& opt_view(x.bed_no) == opt_replaced(u.bed_no, old.bed_no)
    &&& x.check_in_date == (match u.check_in_date {
        Some(t) => match date_input_spec(Some(t@), false) {
            DateInput::Valid(d) => Some(d),
            _ => old.check_in_date,
        },
        None => old.check_in_date,
    })
    &&& x.status@ == replaced(old.status@, u.status, |t: Seq<char>| t)
    &&& opt_view(x.emergency_contact) == opt_replaced(u.emergency_contact, old.emergency_contact)
    &&& opt_view(x.remarks) == opt_replaced(u.remarks, old.remarks)
}

/// Applies a partial update to a resident record.
pub fn update_resident_record(old: ResidentRow, u: &ResidentUpdate) -> (r: ResidentRow)
    ensures
        resident_updated(old, *u, r),
{
    let mut x = old;
    if let Some(rn) = &u.room_no {
        x.room_no = normalize_room_no(rn.as_str());
    }
    if let Some(b) = &u.bed_no {
        x.bed_no = Some(b.clone());
    }
    if let DateInput::Valid(d) = read_date(&u.check_in_date, false) {
        x.check_in_date = Some(d);
    }
    if let Some(s) = &u.status {
        x.status = s.clone();
    }
    if let Some(e) = &u.emergency_contact {
        x.emergency_contact = Some(e.clone());
    }
    if let Some(m) = &u.remarks {
        x.remarks = Some(m.clone());
    }
    x
}

/// Repeating a resident update changes nothing more.
pub proof fn law_resident_update_idempotent(old: ResidentRow, u: ResidentUpdate, x: ResidentRow, y: ResidentRow)
    requires
        resident_updated(old, u, x),
        resident_updated(x, u, y),
    ensures
        y.student_id@ == x.student_id@,
        y.room_no@ == x.room_no@,
        opt_view(y.bed_no) == opt_view(x.bed_no),
        y.check_in_date == x.check_in_date,
        y.status@ == x.status@,
        opt_view(y.emergency_contact) == opt_view(x.emergency_contact),
        opt_view(y.remarks) == opt_view(x.remarks),
{
}

/// Each field that a resident update gives replaces the stored one (the
/// room number normalised, a check-in date only when it reads as a date),
/// each it leaves out stays, and the student never changes.
pub proof fn law_resident_update_replaces_given(old: ResidentRow, u: ResidentUpdate, x: ResidentRow)
    requires
        resident_updated(old, u, x),
    ensures
        x.student_id@ == old.student_id@,
        u.room_no matches Some(t) ==> x.room_no@ == room_no_spec(t@),
        u.room_no is None ==> x.room_no@ == old.room_no@,
        u.bed_no matches Some(t) ==> opt_view(x.bed_no) == Some(t@),
        u.bed_no is None ==> opt_view(x.bed_no) == opt_view(old.bed_no),
        u.check_in_date matches Some(t) ==> (date_input_spec(Some(t@), false) matches DateInput::Valid(
            c,
        ) ==> x.check_in_date == Some(c)),
        u.check_in_date matches Some(t) && !(date_input_spec(Some(t@), false) is Valid)
            ==> x.check_in_date == old.check_in_date,
        u.check_in_date is None ==> x.check_in_date == old.check_in_date,
        u.status matches Some(t) ==> x.status@ == t@,
        u.status is None ==> x.status@ == old.status@,
        u.emergency_contact matches Some(t) ==> opt_view(x.emergency_contact) == Some(t@),
        u.emergency_contact is None ==> opt_view(x.emergency_contact) == opt_view(
            old.emergency_contact,
        ),
        u.remarks matches Some(t) ==> opt_view(x.remarks) == Some(t@),
        u.remarks is None ==> opt_view(x.remarks) == opt_view(old.remarks),
{
}

} // verus!

