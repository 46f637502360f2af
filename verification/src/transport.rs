use vstd::prelude::*;
use crate::dates::{date_input_spec, read_date, CalDate, DateInput};
use crate::errors::{bad_request, conflict, AppError};
use crate::filters::{
    chosen, date_filter, is_chosen, pieces2, pieces4, pieces6, push_date_filter, push_filter,
};
use crate::hostel::{text_or, text_or_default};
use crate::query::{
    build_query, filters_view, opt_filter, query_sql_spec, search_spec, search_term,
    strings_view, values_spec, Filter, FilterView, SqlQuery,
};
use crate::sms::opt_view;
use crate::sql_text::{TRANSPORT_EXPENSES_SQL, TRANSPORT_STUDENTS_SQL, VEHICLES_SQL};
use crate::text::{str_eq, to_upper, trim, trim_spec, uppercase_of};

verus! {

/// Query parameters of the vehicle listing.
#[derive(Debug)]
pub struct GetVehiclesQuery {
    pub search: Option<String>,
    pub vehicle_type: Option<String>,
    pub status: Option<String>,
    pub page: Option<i64>,
    pub limit: Option<i64>,
}

/// Query parameters of the transport expense listing.
#[derive(Debug)]
pub struct GetTransportExpensesQuery {
    pub search: Option<String>,
    pub expense_type: Option<String>,
    pub vehicle_no: Option<String>,
    pub start_date: Option<String>,
    pub end_date: Option<String>,
    pub page: Option<i64>,
    pub limit: Option<i64>,
}

/// Query parameters of the transport student listing.
#[derive(Debug)]
pub struct GetTransportStudentsQuery {
    pub search: Option<String>,
    pub route: Option<String>,
    pub status: Option<String>,
    pub class_name: Option<String>,
    pub vehicle_no: Option<String>,
    pub page: Option<i64>,
    pub limit: Option<i64>,
}

/// The filters of the vehicle listing.
pub open spec fn vehicle_filters(q: GetVehiclesQuery) -> Seq<FilterView> {
    opt_filter(
        q.search is Some,
        seq![" AND (reg_no ILIKE "@, " OR driver ILIKE "@, " OR route ILIKE "@, ")"@],
        search_spec(q.search->0@, true),
    ) + opt_filter(
        chosen(q.vehicle_type, "All Types"@),
        seq![" AND type = "@, ""@],
        q.vehicle_type->0@,
    ) + opt_filter(chosen(q.status, "All Statuses"@), seq![" AND status = "@, ""@], q.status->0@)
}

/// The vehicle listing query (paged).
pub fn vehicles_query(q: &GetVehiclesQuery) -> (r: SqlQuery)
    ensures
        r.sql@ == query_sql_spec(VEHICLES_SQL@, 0, vehicle_filters(*q), " ORDER BY reg_no ASC"@, true),
        strings_view(r.binders@) == values_spec(vehicle_filters(*q)),
{
    let mut fs: Vec<Filter> = Vec::new();
    if let Some(s) = &q.search {
        push_filter(
            &mut fs,
            pieces4(" AND (reg_no ILIKE ", " OR driver ILIKE ", " OR route ILIKE ", ")"),
            search_term(s.as_str(), true),
        );
    }
    if is_chosen(&q.vehicle_type, "All Types") {
        let v = q.vehicle_type.as_ref().unwrap().clone();
        push_filter(&mut fs, pieces2(" AND type = ", ""), v);
    }
    if is_chosen(&q.status, "All Statuses") {
        let v = q.status.as_ref().unwrap().clone();
        push_filter(&mut fs, pieces2(" AND status = ", ""), v);
    }
    assert(filters_view(fs@) =~= vehicle_filters(*q));
    let r = build_query(VEHICLES_SQL, Vec::new(), fs, " ORDER BY reg_no ASC", true);
    assert(strings_view(Seq::<String>::empty()) =~= Seq::<Seq<char>>::empty());
    assert(strings_view(r.binders@) =~= values_spec(vehicle_filters(*q)));
    r
}

/// The filters of the transport expense listing; date bounds that are no
/// date are ignored.
pub open spec fn transport_expense_filters(
    q: GetTransportExpensesQuery,
    start: DateInput,
    end: DateInput,
) -> Seq<FilterView> {
    opt_filter(
        q.search is Some,
        seq![" AND (vendor ILIKE "@, " OR remarks ILIKE "@, " OR utr_no ILIKE "@, ")"@],
        search_spec(q.search->0@, true),
    ) + opt_filter(
        chosen(q.expense_type, "All Types"@),
        seq![" AND type = "@, ""@],
        q.expense_type->0@,
    ) + opt_filter(
        chosen(q.vehicle_no, "All Vehicles"@),
        seq![" AND vehicle_no = "@, ""@],
        q.vehicle_no->0@,
    ) + date_filter(start, seq![" AND date >= "@, ""@]) + date_filter(
        end,
        seq![" AND date <= "@, ""@],
    )
}

/// The transport expense listing query once its bounds are read.
pub fn transport_expenses_query_with(
    q: &GetTransportExpensesQuery,
    start: DateInput,
    end: DateInput,
) -> (r: SqlQuery)
    ensures
        r.sql@ == query_sql_spec(
            TRANSPORT_EXPENSES_SQL@,
            0,
            transport_expense_filters(*q, start, end),
            " ORDER BY date DESC, created_at DESC"@,
            true,
        ),
        strings_view(r.binders@) == values_spec(transport_expense_filters(*q, start, end)),
{
    let mut fs: Vec<Filter> = Vec::new();
    if let Some(s) = &q.search {
        push_filter(
            &mut fs,
            pieces4(" AND (vendor ILIKE ", " OR remarks ILIKE ", " OR utr_no ILIKE ", ")"),
            search_term(s.as_str(), true),
        );
    }
    if is_chosen(&q.expense_type, "All Types") {
        let v = q.expense_type.as_ref().unwrap().clone();
        push_filter(&mut fs, pieces2(" AND type = ", ""), v);
    }
    if is_chosen(&q.vehicle_no, "All Vehicles") {
        let v = q.vehicle_no.as_ref().unwrap().clone();
        push_filter(&mut fs, pieces2(" AND vehicle_no = ", ""), v);
    }
    push_date_filter(&mut fs, &start, pieces2(" AND date >= ", ""));
    push_date_filter(&mut fs, &end, pieces2(" AND date <= ", ""));
    assert(filters_view(fs@) =~= transport_expense_filters(*q, start, end));
    let r = build_query(
        TRANSPORT_EXPENSES_SQL,
        Vec::new(),
        fs,
        " ORDER BY date DESC, created_at DESC",
        true,
    );
    assert(strings_view(Seq::<String>::empty()) =~= Seq::<Seq<char>>::empty());
    assert(strings_view(r.binders@) =~= values_spec(transport_expense_filters(*q, start, end)));
    r
}

/// The transport expense listing query: reads the start and end bounds
/// with chrono, then builds the query.
pub fn transport_expenses_query(q: &GetTransportExpensesQuery) -> (r: SqlQuery)
    ensures
        ({
            let start = date_input_spec(opt_view(q.start_date), false);
            let end = date_input_spec(opt_view(q.end_date), false);
            &&& r.sql@ == query_sql_spec(
                TRANSPORT_EXPENSES_SQL@,
                0,
                transport_expense_filters(*q, start, end),
                " ORDER BY date DESC, created_at DESC"@,
                true,
            )
            &&& strings_view(r.binders@) == values_spec(transport_expense_filters(*q, start, end))
        }),
{
    let start = read_date(&q.start_date, false);
    let end = read_date(&q.end_date, false);
    transport_expenses_query_with(q, start, end)
}

/// The filters of the transport student listing.
pub open spec fn transport_student_filters(q: GetTransportStudentsQuery) -> Seq<FilterView> {
    opt_filter(
        q.search is Some,
        seq![
            " AND (COALESCE(s.name, '') ILIKE "@,
            " OR ts.student_id ILIKE "@,
            " OR COALESCE(ts.pickup_point, '') ILIKE "@,
            " OR COALESCE(ts.route, '') ILIKE "@,
            " OR COALESCE(ts.vehicle_no, '') ILIKE "@,
            ")"@,
        ],
        search_spec(q.search->0@, true),
    ) + opt_filter(chosen(q.route, "All Routes"@), seq![" AND ts.route = "@, ""@], q.route->0@)
        + opt_filter(
        chosen(q.status, "All Statuses"@),
        seq![" AND ts.status = "@, ""@],
        q.status->0@,
    ) + opt_filter(
        chosen(q.class_name, "All Classes"@),
        seq![" AND COALESCE(s.class_name, '') = "@, ""@],
        q.class_name->0@,
    ) + opt_filter(
        chosen(q.vehicle_no, "All Buses"@),
        seq![" AND ts.vehicle_no = "@, ""@],
        q.vehicle_no->0@,
    )
}

/// The transport student listing query (paged).
pub fn transport_students_query(q: &GetTransportStudentsQuery) -> (r: SqlQuery)
    ensures
        r.sql@ == query_sql_spec(
            TRANSPORT_STUDENTS_SQL@,
            0,
            transport_student_filters(*q),
            " ORDER BY COALESCE(s.name, ts.student_id) ASC"@,
            true,
        ),
        strings_view(r.binders@) == values_spec(transport_student_filters(*q)),
{
    let mut fs: Vec<Filter> = Vec::new();
    if let Some(s) = &q.search {
        push_filter(
            &mut fs,
            pieces6(
                " AND (COALESCE(s.name, '') ILIKE ",
                " OR ts.student_id ILIKE ",
                " OR COALESCE(ts.pickup_point, '') ILIKE ",
                " OR COALESCE(ts.route, '') ILIKE ",
                " OR COALESCE(ts.vehicle_no, '') ILIKE ",
                ")",
            ),
            search_term(s.as_str(), true),
        );
    }
    if is_chosen(&q.route, "All Routes") {
        let v = q.route.as_ref().unwrap().clone();
        push_filter(&mut fs, pieces2(" AND ts.route = ", ""), v);
    }
    if is_chosen(&q.status, "All Statuses") {
        let v = q.status.as_ref().unwrap().clone();
        push_filter(&mut fs, pieces2(" AND ts.status = ", ""), v);
    }
    if is_chosen(&q.class_name, "All Classes") {
        let v = q.class_name.as_ref().unwrap().clone();
        push_filter(&mut fs, pieces2(" AND COALESCE(s.class_name, '') = ", ""), v);
    }
    if is_chosen(&q.vehicle_no, "All Buses") {
        let v = q.vehicle_no.as_ref().unwrap().clone();
        push_filter(&mut fs, pieces2(" AND ts.vehicle_no = ", ""), v);
    }
    assert(filters_view(fs@) =~= transport_student_filters(*q));
    let r = build_query(
        TRANSPORT_STUDENTS_SQL,
        Vec::new(),
        fs,
        " ORDER BY COALESCE(s.name, ts.student_id) ASC",
        true,
    );
    assert(strings_view(Seq::<String>::empty()) =~= Seq::<Seq<char>>::empty());
    assert(strings_view(r.binders@) =~= values_spec(transport_student_filters(*q)));
    r
}

/// A vehicle registration number as stored: trimmed and upper-cased.
pub open spec fn reg_no_spec(s: Seq<char>) -> Seq<char> {
    uppercase_of(trim_spec(s))
}

/// Normalises a registration number.
pub fn normalize_reg_no(s: &str) -> (r: String)
    ensures
        r@ == reg_no_spec(s@),
{
    to_upper(trim(s))
}

/// The text fields of a vehicle registration.
#[derive(Debug)]
pub struct VehicleDraft {
    pub reg_no: String,
    pub vehicle_type: String,
    pub capacity: Option<i32>,
    pub driver: Option<String>,
    pub route: Option<String>,
    pub status: Option<String>,
    pub remarks: Option<String>,
}

/// The stored fields of a vehicle.
#[derive(Debug)]
pub struct VehicleRecord {
    pub reg_no: String,
    pub vehicle_type: String,
    pub capacity: i32,
    pub driver: String,
    pub route: String,
    pub status: String,
    pub remarks: String,
}

/// The message for a registration number that is taken.
pub open spec fn vehicle_taken_message(reg_no: Seq<char>) -> Seq<char> {
    "Vehicle "@ + reg_no + " is already registered"@
}

/// Completes a vehicle registration once it is known whether the
/// normalised registration number is taken: a taken number is a conflict;
/// otherwise capacity, driver, route, status and remarks default to 40,
/// `—`, `—`, `active` and `—`, and the type is trimmed.
pub fn vehicle_registration(d: &VehicleDraft, taken: bool) -> (r: Result<VehicleRecord, AppError>)
    ensures
        taken ==> (r matches Err(e) && e.is_conflict(
            vehicle_taken_message(reg_no_spec(d.reg_no@)),
        )),
        !taken ==> (r matches Ok(x) && {
            &&& x.reg_no@ == reg_no_spec(d.reg_no@)
            &&& x.vehicle_type@ == trim_spec(d.vehicle_type@)
            &&& x.capacity == (match d.capacity {
                Some(c) => c,
                None => 40,
            })
            &&& x.driver@ == text_or(d.driver, "—"@)
            &&& x.route@ == text_or(d.route, "—"@)
            &&& x.status@ == text_or(d.status, "active"@)
            &&& x.remarks@ == text_or(d.remarks, "—"@)
        }),
{
    let reg = normalize_reg_no(d.reg_no.as_str());
    if taken {
        let mut m = String::from_str("Vehicle ");
        m.append(reg.as_str());
        m.append(" is already registered");
        return Err(AppError::Conflict(m));
    }
    Ok(VehicleRecord {
        reg_no: reg,
        vehicle_type: String::from_str(trim(d.vehicle_type.as_str())),
        capacity: match d.capacity {
            Some(c) => c,
            None => 40,
        },
        driver: text_or_default(&d.driver, "—"),
        route: text_or_default(&d.route, "—"),
        status: text_or_default(&d.status, "active"),
        remarks: text_or_default(&d.remarks, "—"),
    })
}

/// A partial change of a vehicle.
#[derive(Debug)]
pub struct VehicleUpdate {
    pub reg_no: Option<String>,
    pub vehicle_type: Option<String>,
    pub capacity: Option<i32>,
    pub driver: Option<String>,
    pub route: Option<String>,
    pub status: Option<String>,
    pub remarks: Option<String>,
}

/// A field after an optional replacement.
pub open spec fn or_old(new: Option<String>, old: Seq<char>) -> Seq<char> {
    match new {
        Some(t) => t@,
        None => old,
    }
}

/// Whether a vehicle is the stored one with an update put in: a given
/// registration number normalised, the other given fields as given.
pub open spec fn vehicle_updated(old: VehicleRecord, u: VehicleUpdate, x: VehicleRecord) -> bool {
    &&& x.reg_no@ == (match u.reg_no {
        Some(t) => reg_no_spec(t@),
        None => old.reg_no@,
    })
    &&& x.vehicle_type@ == or_old(u.vehicle_type, old.vehicle_type@)
    &&& x.capacity == (match u.capacity {
        Some(c) => c,
        None => old.capacity,
    })
    &&& x.driver@ == or_old(u.driver, old.driver@)
    &&& x.route@ == or_old(u.route, old.route@)
    &&& x.status@ == or_old(u.status, old.status@)
    &&& x.remarks@ == or_old(u.remarks, old.remarks@)
}

/// Repeating a vehicle update changes nothing more.
pub proof fn law_vehicle_update_idempotent(old: VehicleRecord, u: VehicleUpdate, x: VehicleRecord, y: VehicleRecord)
    requires
        vehicle_updated(old, u, x),
        vehicle_updated(x, u, y),
    ensures
        y.reg_no@ == x.reg_no@,
        y.vehicle_type@ == x.vehicle_type@,
        y.capacity == x.capacity,
        y.driver@ == x.driver@,
        y.route@ == x.route@,
        y.status@ == x.status@,
        y.remarks@ == x.remarks@,
{
}

/// Each field that a vehicle update gives replaces the stored one (the
/// registration number normalised), and each it leaves out stays.
pub proof fn law_vehicle_update_replaces_given(old: VehicleRecord, u: VehicleUpdate, x: VehicleRecord)
    requires
        vehicle_updated(old, u, x),
    ensures
        u.reg_no matches Some(t) ==> x.reg_no@ == reg_no_spec(t@),
        u.reg_no is None ==> x.reg_no@ == old.reg_no@,
        u.vehicle_type matches Some(t) ==> x.vehicle_type@ == t@,
        u.vehicle_type is None ==> x.vehicle_type@ == old.vehicle_type@,
        u.capacity matches Some(c) ==> x.capacity == c,
        u.capacity is None ==> x.capacity == old.capacity,
        u.driver matches Some(t) ==> x.driver@ == t@,
        u.driver is None ==> x.driver@ == old.driver@,
        u.route matches Some(t) ==> x.route@ == t@,
        u.route is None ==> x.route@ == old.route@,
        u.status matches Some(t) ==> x.status@ == t@,
        u.status is None ==> x.status@ == old.status@,
        u.remarks matches Some(t) ==> x.remarks@ == t@,
        u.remarks is None ==> x.remarks@ == old.remarks@,
{
}

/// Applies a vehicle update once it is known whether the new registration
/// number (when one is given) belongs to another vehicle.
pub fn update_vehicle_record(old: VehicleRecord, u: VehicleUpdate, reg_no_taken: bool) -> (r:
    Result<VehicleRecord, AppError>)
    ensures
        u.reg_no is Some && reg_no_taken ==> (r matches Err(e) && e.is_conflict(
            "Registration number already assigned to another vehicle"@,
        )),
        !(u.reg_no is Some && reg_no_taken) ==> (r matches Ok(x) && vehicle_updated(old, u, x)),
{
    let mut r = old;
    if let Some(reg) = &u.reg_no {
        if reg_no_taken {
            return Err(conflict("Registration number already assigned to another vehicle"));
        }
        r.reg_no = normalize_reg_no(reg.as_str());
    }
    if let Some(t) = u.vehicle_type {
        r.vehicle_type = t;
    }
    if let Some(c) = u.capacity {
        r.capacity = c;
    }
    if let Some(t) = u.driver {
        r.driver = t;
    }
    if let Some(t) = u.route {
        r.route = t;
    }
    if let Some(t) = u.status {
        r.status = t;
    }
    if let Some(t) = u.remarks {
        r.remarks = t;
    }
    Ok(r)
}

/// The message for a vehicle that is not in the fleet.
pub open spec fn vehicle_unknown_message(reg_no: Seq<char>) -> Seq<char> {
    "Vehicle "@ + reg_no + " is not registered"@
}

/// The vehicle of an expense: the normalised number must be registered.
pub fn expense_vehicle(vehicle_no: &str, registered: bool) -> (r: Result<String, AppError>)
    ensures
        registered ==> (r matches Ok(v) && v@ == reg_no_spec(vehicle_no@)),
        !registered ==> (r matches Err(e) && e is NotFound && e.message()
            == vehicle_unknown_message(reg_no_spec(vehicle_no@))),
{
    let reg = normalize_reg_no(vehicle_no);
    if !registered {
        let mut m = String::from_str("Vehicle ");
        m.append(reg.as_str());
        m.append(" is not registered");
        return Err(AppError::NotFound(m));
    }
    Ok(reg)
}

/// The date of a new expense must be a date.
pub fn expense_date(d: DateInput) -> (r: Result<CalDate, AppError>)
    ensures
        d matches DateInput::Valid(c) ==> r == Ok::<CalDate, AppError>(c),
        !(d is Valid) ==> (r matches Err(e) && e.is_bad_request("Invalid date format"@)),
{
    match d {
        DateInput::Valid(c) => Ok(c),
        _ => Err(bad_request("Invalid date format")),
    }
}

/// How a student's vehicle number is handled when the student is
/// registered for transport.
#[derive(Debug)]
pub enum VehicleChoice {
    /// Store this value as given (no lookup).
    Keep(Option<String>),
    /// Store the normalised number, which must be a registered vehicle.
    Check(String),
}

/// On registration a vehicle number is looked up only when its normalised
/// form is neither empty nor `—`; otherwise the given value is stored as
/// it is.
pub open spec fn registration_vehicle_spec(vehicle_no: Option<Seq<char>>) -> Option<Seq<char>> {
    match vehicle_no {
        Some(v) => if reg_no_spec(v).len() != 0 && reg_no_spec(v) != "—"@ {
            Some(reg_no_spec(v))
        } else {
            None
        },
        None => None,
    }
}

/// Decides whether a transport registration must look up its vehicle.
pub fn registration_vehicle(vehicle_no: &Option<String>) -> (r: VehicleChoice)
    ensures
        registration_vehicle_spec(opt_view(*vehicle_no)) matches Some(v) ==> (r matches VehicleChoice::Check(c)
            && c@ == v),
        registration_vehicle_spec(opt_view(*vehicle_no)) is None ==> (r matches VehicleChoice::Keep(k)
            && opt_view(k) == opt_view(*vehicle_no)),
{
    match vehicle_no {
        Some(v) => {
            let up = normalize_reg_no(v.as_str());
            if up.as_str().unicode_len() != 0 && !str_eq(up.as_str(), "—") {
                VehicleChoice::Check(up)
            } else {
                VehicleChoice::Keep(Some(v.clone()))
            }
        },
        None => VehicleChoice::Keep(None),
    }
}

/// The message for a registration whose vehicle is not in the fleet.
pub open spec fn fleet_unknown_message(reg_no: Seq<char>) -> Seq<char> {
    "Vehicle '"@ + reg_no
        + "' is not registered in transport fleet. Please select or register a valid vehicle first."@
}

/// The error for a registration whose vehicle is not in the fleet.
pub fn fleet_unknown_error(reg_no: &str) -> (e: AppError)
    ensures
        e.is_bad_request(fleet_unknown_message(reg_no@)),
{
    let mut m = String::from_str("Vehicle '");
    m.append(reg_no);
    m.append(
        "' is not registered in transport fleet. Please select or register a valid vehicle first.",
    );
    AppError::BadRequest(m)
}

/// The stored text fields of a transport student record.
#[derive(Debug)]
pub struct TransportStudentDraft {
    pub student_id: String,
    pub vehicle_no: Option<String>,
    pub route: Option<String>,
    pub pickup_point: Option<String>,
    pub status: Option<String>,
    pub remarks: Option<String>,
}

/// Completes a transport registration after the lookups: the student id is
/// the registry's spelling or the trimmed id; a vehicle that needed a
/// lookup must be registered; status and remarks default to `active` and
/// `—`.
pub fn transport_registration(
    d: &TransportStudentDraft,
    master_student_id: Option<String>,
    vehicle_registered: bool,
) -> (r: Result<TransportStudentDraft, AppError>)
    ensures
        ({
            let v = registration_vehicle_spec(opt_view(d.vehicle_no));
            &&& (v is Some && !vehicle_registered) ==> (r matches Err(e) && e.is_bad_request(
                fleet_unknown_message(v->0),
            ))
            &&& !(v is Some && !vehicle_registered) ==> (r matches Ok(x) && {
                &&& x.student_id@ == (match master_student_id {
                    Some(m) => m@,
                    None => trim_spec(d.student_id@),
                })
                &&& opt_view(x.vehicle_no) == (match v {
                    Some(reg) => Some(reg),
                    None => opt_view(d.vehicle_no),
                })
                &&& opt_view(x.route) == opt_view(d.route)
                &&& opt_view(x.pickup_point) == opt_view(d.pickup_point)
                &&& x.status matches Some(s) && s@ == text_or(d.status, "active"@)
                &&& x.remarks matches Some(m) && m@ == text_or(d.remarks, "—"@)
            })
        }),
{
    let student_id = match master_student_id {
        Some(m) => m,
        None => String::from_str(trim(d.student_id.as_str())),
    };
    let vehicle_no = match registration_vehicle(&d.vehicle_no) {
        VehicleChoice::Check(reg) => {
            if !vehicle_registered {
                return Err(fleet_unknown_error(reg.as_str()));
            }
            Some(reg)
        },
        VehicleChoice::Keep(k) => k,
    };
    Ok(TransportStudentDraft {
        student_id,
        vehicle_no,
        route: d.route.clone(),
        pickup_point: d.pickup_point.clone(),
        status: Some(text_or_default(&d.status, "active")),
        remarks: Some(text_or_default(&d.remarks, "—")),
    })
}

/// On an update the vehicle number is cleared by an empty text; any other
/// text is normalised and must be a registered vehicle.
pub open spec fn update_vehicle_spec(vehicle_no: Seq<char>) -> Option<Seq<char>> {
    if vehicle_no.len() == 0 {
        None
    } else {
        Some(reg_no_spec(vehicle_no))
    }
}

/// The vehicle after an update that gives a vehicle number, once it is
/// known whether the normalised number is registered.
pub fn updated_vehicle(vehicle_no: &str, registered: bool) -> (r: Result<Option<String>, AppError>)
    ensures
        vehicle_no@.len() == 0 ==> (r matches Ok(x) && x is None),
        vehicle_no@.len() != 0 && registered ==> (r matches Ok(x) && opt_view(x) == Some(
            reg_no_spec(vehicle_no@),
        )),
        vehicle_no@.len() != 0 && !registered ==> (r matches Err(e) && e is NotFound
            && e.message() == vehicle_unknown_message(reg_no_spec(vehicle_no@))),
{
    if vehicle_no.unicode_len() == 0 {
        return Ok(None);
    }
    match expense_vehicle(vehicle_no, registered) {
        Ok(v) => Ok(Some(v)),
        Err(e) => Err(e),
    }
}

/// The message of an imported row whose student is not registered.
pub open spec fn import_unknown_student_message(student_id: Seq<char>) -> Seq<char> {
    "Student ID \""@ + student_id + "\" is not registered in the system"@
}

/// The message of an imported row whose vehicle is not registered; it
/// quotes the vehicle number as the row gives it.
pub open spec fn import_unknown_vehicle_message(vehicle_no: Seq<char>) -> Seq<char> {
    "Vehicle \""@ + vehicle_no + "\" is not registered"@
}

/// Whether an imported row's vehicle number needs a lookup: it is given
/// and not empty.
pub open spec fn import_vehicle_checked(vehicle_no: Option<String>) -> bool {
    vehicle_no matches Some(v) && v@.len() != 0
}

/// Completes an imported transport row once the student and (where one is
/// given) the upper-cased, trimmed vehicle number have been looked up: the
/// student must be registered, then the vehicle; status and remarks
/// default to `active` and `—`. The student id is kept as the row gives
/// it.
pub fn import_transport_row(d: &TransportStudentDraft, student_registered: bool, vehicle_registered: bool) -> (r:
    Result<TransportStudentDraft, AppError>)
    ensures
        !student_registered ==> (r matches Err(e) && e is NotFound && e.message()
            == import_unknown_student_message(d.student_id@)),
        student_registered && import_vehicle_checked(d.vehicle_no) && !vehicle_registered ==> (r matches Err(
            e,
        ) && e is NotFound && e.message() == import_unknown_vehicle_message(d.vehicle_no->0@)),
        student_registered && !(import_vehicle_checked(d.vehicle_no) && !vehicle_registered) ==> (r matches Ok(
            x,
        ) && {
            &&& x.student_id@ == d.student_id@
            &&& opt_view(x.vehicle_no) == (if import_vehicle_checked(d.vehicle_no) {
                Some(reg_no_spec(d.vehicle_no->0@))
            } else {
                opt_view(d.vehicle_no)
            })
            &&& opt_view(x.route) == opt_view(d.route)
            &&& opt_view(x.pickup_point) == opt_view(d.pickup_point)
            &&& x.status matches Some(s) && s@ == text_or(d.status, "active"@)
            &&& x.remarks matches Some(m) && m@ == text_or(d.remarks, "—"@)
        }),
{
    if !student_registered {
        let mut m = String::from_str("Student ID \"");
        m.append(d.student_id.as_str());
        m.append("\" is not registered in the system");
        return Err(AppError::NotFound(m));
    }
    let vehicle_no = match &d.vehicle_no {
        Some(v) => if v.as_str().unicode_len() != 0 {
            if !vehicle_registered {
                let mut m = String::from_str("Vehicle \"");
                m.append(v.as_str());
                m.append("\" is not registered");
                return Err(AppError::NotFound(m));
            }
            Some(normalize_reg_no(v.as_str()))
        } else {
            Some(v.clone())
        },
        None => None,
    };
    Ok(TransportStudentDraft {
        student_id: d.student_id.clone(),
        vehicle_no,
        route: d.route.clone(),
        pickup_point: d.pickup_point.clone(),
        status: Some(text_or_default(&d.status, "active")),
        remarks: Some(text_or_default(&d.remarks, "—")),
    })
}

/// The stored text fields and date of a vehicle expense, apart from its
/// litres, rate and amount.
#[derive(Debug)]
pub struct TransportExpenseRow {
    pub date: CalDate,
    pub vehicle_no: String,
    pub type_val: String,
    pub vendor: String,
    pub payment_mode: String,
    pub remarks: Option<String>,
    pub utr_no: String,
}

/// A new vehicle expense, apart from its litres, rate and amount.
#[derive(Debug)]
pub struct TransportExpenseDraft {
    pub date: String,
    pub vehicle_no: String,
    pub type_val: String,
    pub vendor: String,
    pub payment_mode: Option<String>,
    pub remarks: Option<String>,
    pub utr_no: Option<String>,
}

/// A partial change of a vehicle expense, apart from its litres, rate and
/// amount.
#[derive(Debug)]
pub struct TransportExpenseUpdate {
    pub date: Option<String>,
    pub vehicle_no: Option<String>,
    pub type_val: Option<String>,
    pub vendor: Option<String>,
    pub payment_mode: Option<String>,
    pub remarks: Option<String>,
    pub utr_no: Option<String>,
}

/// Records a vehicle expense once it is known whether its normalised
/// vehicle number is registered: the vehicle must be registered, then the
/// date must be a date; type and vendor are trimmed, the mode defaults to
/// `Online` and the UTR number to `—`.
pub fn transport_expense_entry(d: &TransportExpenseDraft, vehicle_registered: bool) -> (r: Result<
    TransportExpenseRow,
    AppError,
>)
    ensures
        !vehicle_registered ==> (r matches Err(e) && e is NotFound && e.message()
            == vehicle_unknown_message(reg_no_spec(d.vehicle_no@))),
        vehicle_registered && date_input_spec(Some(d.date@), false) !is Valid ==> (r matches Err(e)
            && e.is_bad_request("Invalid date format"@)),
        vehicle_registered && date_input_spec(Some(d.date@), false) is Valid ==> (r matches Ok(x) && {
            &&& x.date == date_input_spec(Some(d.date@), false)->Valid_0
            &&& x.vehicle_no@ == reg_no_spec(d.vehicle_no@)
            &&& x.type_val@ == trim_spec(d.type_val@)
            &&& x.vendor@ == trim_spec(d.vendor@)
            &&& x.payment_mode@ == text_or(d.payment_mode, "Online"@)
            &&& opt_view(x.remarks) == opt_view(d.remarks)
            &&& x.utr_no@ == text_or(d.utr_no, "—"@)
        }),
{
    let vehicle_no = expense_vehicle(d.vehicle_no.as_str(), vehicle_registered)?;
    let date_text = Some(d.date.clone());
    let date = expense_date(read_date(&date_text, false))?;
    Ok(TransportExpenseRow {
        date,
        vehicle_no,
        type_val: String::from_str(trim(d.type_val.as_str())),
        vendor: String::from_str(trim(d.vendor.as_str())),
        payment_mode: text_or_default(&d.payment_mode, "Online"),
        remarks: d.remarks.clone(),
        utr_no: text_or_default(&d.utr_no, "—"),
    })
}

/// Whether a vehicle expense is the stored one with an update put in: a
/// given vehicle number normalised, a given date only when it reads as a
/// date, the other given fields as given.
pub open spec fn transport_expense_updated(old: TransportExpenseRow, u: TransportExpenseUpdate, x: TransportExpenseRow) -> bool {
    &&& x.vehicle_no@ == (match u.vehicle_no {
        Some(v) => reg_no_spec(v@),
        None => old.vehicle_no@,
    })
    &&& x.date == (match u.date {
        Some(t) => match date_input_spec(Some(t@), false) {
            DateInput::Valid(c) => c,
            _ => old.date,
        },
        None => old.date,
    })
    &&& x.type_val@ == or_old(u.type_val, old.type_val@)
    &&& x.vendor@ == or_old(u.vendor, old.vendor@)
    &&& x.payment_mode@ == or_old(u.payment_mode, old.payment_mode@)
    &&& opt_view(x.remarks) == (match u.remarks {
        Some(t) => Some(t@),
        None => opt_view(old.remarks),
    })
    &&& x.utr_no@ == or_old(u.utr_no, old.utr_no@)
}

/// Repeating a vehicle expense update changes nothing more.
pub proof fn law_transport_expense_update_idempotent(old: TransportExpenseRow, u: TransportExpenseUpdate, x: TransportExpenseRow, y: TransportExpenseRow)
    requires
        transport_expense_updated(old, u, x),
        transport_expense_updated(x, u, y),
    ensures
        y.vehicle_no@ == x.vehicle_no@,
        y.date == x.date,
        y.type_val@ == x.type_val@,
        y.vendor@ == x.vendor@,
        y.payment_mode@ == x.payment_mode@,
        opt_view(y.remarks) == opt_view(x.remarks),
        y.utr_no@ == x.utr_no@,
{
}

/// Each field that a vehicle expense update gives replaces the stored one
/// (the vehicle number normalised, a date only when it reads as a date),
/// and each it leaves out stays.
pub proof fn law_transport_expense_update_replaces_given(
    old: TransportExpenseRow,
    u: TransportExpenseUpdate,
    x: TransportExpenseRow,
)
    requires
        transport_expense_updated(old, u, x),
    ensures
        u.vehicle_no matches Some(t) ==> x.vehicle_no@ == reg_no_spec(t@),
        u.vehicle_no is None ==> x.vehicle_no@ == old.vehicle_no@,
        u.date matches Some(t) ==> (date_input_spec(Some(t@), false) matches DateInput::Valid(c)
            ==> x.date == c),
        u.date matches Some(t) && !(date_input_spec(Some(t@), false) is Valid) ==> x.date
            == old.date,
        u.date is None ==> x.date == old.date,
        u.type_val matches Some(t) ==> x.type_val@ == t@,
        u.type_val is None ==> x.type_val@ == old.type_val@,
        u.vendor matches Some(t) ==> x.vendor@ == t@,
        u.vendor is None ==> x.vendor@ == old.vendor@,
        u.payment_mode matches Some(t) ==> x.payment_mode@ == t@,
        u.payment_mode is None ==> x.payment_mode@ == old.payment_mode@,
        u.remarks matches Some(t) ==> opt_view(x.remarks) == Some(t@),
        u.remarks is None ==> opt_view(x.remarks) == opt_view(old.remarks),
        u.utr_no matches Some(t) ==> x.utr_no@ == t@,
        u.utr_no is None ==> x.utr_no@ == old.utr_no@,
{
}

/// Applies a vehicle expense update once it is known whether a given
/// vehicle number, normalised, is registered: a given vehicle must be
/// registered; a given date replaces the stored one only when it reads as
/// a date; other given fields replace the stored ones.
pub fn transport_expense_update(old: TransportExpenseRow, u: &TransportExpenseUpdate, vehicle_registered: bool) -> (r:
    Result<TransportExpenseRow, AppError>)
    ensures
        u.vehicle_no is Some && !vehicle_registered ==> (r matches Err(e) && e is NotFound
            && e.message() == vehicle_unknown_message(reg_no_spec(u.vehicle_no->0@))),
        !(u.vehicle_no is Some && !vehicle_registered) ==> (r matches Ok(x) && transport_expense_updated(old, *u, x)),
{
    let mut x = old;
    if let Some(v) = &u.vehicle_no {
        x.vehicle_no = expense_vehicle(v.as_str(), vehicle_registered)?;
    }
    if let DateInput::Valid(c) = read_date(&u.date, false) {
        x.date = c;
    }
    if let Some(t) = &u.type_val {
        x.type_val = t.clone();
    }
    if let Some(t) = &u.vendor {
        x.vendor = t.clone();
    }
    if let Some(t) = &u.payment_mode {
        x.payment_mode = t.clone();
    }
    if let Some(t) = &u.remarks {
        x.remarks = Some(t.clone());
    }
    if let Some(t) = &u.utr_no {
        x.utr_no = t.clone();
    }
    Ok(x)
}

/// A partial change of a transport student record, apart from the fee.
#[derive(Debug)]
pub struct TransportStudentUpdate {
    pub vehicle_no: Option<String>,
    pub route: Option<String>,
    pub pickup_point: Option<String>,
    pub status: Option<String>,
    pub remarks: Option<String>,
}

/// An optional field after an optional replacement.
pub open spec fn opt_or(new: Option<String>, old: Option<String>) -> Option<Seq<char>> {
    match new {
        Some(t) => Some(t@),
        None => opt_view(old),
    }
}

/// Whether a transport student record is the stored one with an update
/// put in: an empty vehicle number clears it, another is normalised; the
/// other given fields as given.
pub open spec fn transport_student_updated(old: TransportStudentDraft, u: TransportStudentUpdate, x: TransportStudentDraft) -> bool {
    &&& x.student_id@ == old.student_id@
    &&& opt_view(x.vehicle_no) == (match u.vehicle_no {
        Some(v) => update_vehicle_spec(v@),
        None => opt_view(old.vehicle_no),
    })
    &&& opt_view(x.route) == opt_or(u.route, old.route)
    &&& opt_view(x.pickup_point) == opt_or(u.pickup_point, old.pickup_point)
    &&& opt_view(x.status) == opt_or(u.status, old.status)
    &&& opt_view(x.remarks) == opt_or(u.remarks, old.remarks)
}

/// Repeating a transport student update changes nothing more.
pub proof fn law_transport_student_update_idempotent(old: TransportStudentDraft, u: TransportStudentUpdate, x: TransportStudentDraft, y: TransportStudentDraft)
    requires
        transport_student_updated(old, u, x),
        transport_student_updated(x, u, y),
    ensures
        y.student_id@ == x.student_id@,
        opt_view(y.vehicle_no) == opt_view(x.vehicle_no),
        opt_view(y.route) == opt_view(x.route),
        opt_view(y.pickup_point) == opt_view(x.pickup_point),
        opt_view(y.status) == opt_view(x.status),
        opt_view(y.remarks) == opt_view(x.remarks),
{
}

/// Each field that a transport student update gives replaces the stored
/// one (an empty vehicle number clears it, another is normalised), each
/// it leaves out stays, and the student never changes.
pub proof fn law_transport_student_update_replaces_given(
    old: TransportStudentDraft,
    u: TransportStudentUpdate,
    x: TransportStudentDraft,
)
    requires
        transport_student_updated(old, u, x),
    ensures
        x.student_id@ == old.student_id@,
        u.vehicle_no matches Some(t) ==> (t@.len() == 0 ==> x.vehicle_no is None),
        u.vehicle_no matches Some(t) ==> (t@.len() != 0 ==> opt_view(x.vehicle_no) == Some(
            reg_no_spec(t@),
        )),
        u.vehicle_no is None ==> opt_view(x.vehicle_no) == opt_view(old.vehicle_no),
        u.route matches Some(t) ==> opt_view(x.route) == Some(t@),
        u.route is None ==> opt_view(x.route) == opt_view(old.route),
        u.pickup_point matches Some(t) ==> opt_view(x.pickup_point) == Some(t@),
        u.pickup_point is None ==> opt_view(x.pickup_point) == opt_view(old.pickup_point),
        u.status matches Some(t) ==> opt_view(x.status) == Some(t@),
        u.status is None ==> opt_view(x.status) == opt_view(old.status),
        u.remarks matches Some(t) ==> opt_view(x.remarks) == Some(t@),
        u.remarks is None ==> opt_view(x.remarks) == opt_view(old.remarks),
{
}

/// Applies an update to a transport student record once it is known
/// whether a given, non-empty vehicle number (normalised) is registered: an
/// empty vehicle number clears it, another must be registered; the other
/// given fields replace the stored ones.
pub fn transport_student_update(old: TransportStudentDraft, u: &TransportStudentUpdate, vehicle_registered: bool) -> (r:
    Result<TransportStudentDraft, AppError>)
    ensures
        (u.vehicle_no matches Some(v) && v@.len() != 0 && !vehicle_registered) ==> (r matches Err(e)
            && e is NotFound && e.message() == vehicle_unknown_message(reg_no_spec(u.vehicle_no->0@))),
        !(u.vehicle_no matches Some(v) && v@.len() != 0 && !vehicle_registered) ==> (r matches Ok(x) && transport_student_updated(old, *u, x)),
{
    let mut x = old;
    if let Some(v) = &u.vehicle_no {
        x.vehicle_no = updated_vehicle(v.as_str(), vehicle_registered)?;
    }
    if let Some(t) = &u.route {
        x.route = Some(t.clone());
    }
    if let Some(t) = &u.pickup_point {
        x.pickup_point = Some(t.clone());
    }
    if let Some(t) = &u.status {
        x.status = Some(t.clone());
    }
    if let Some(t) = &u.remarks {
        x.remarks = Some(t.clone());
    }
    Ok(x)
}

/// The general-ledger copy of a vehicle expense.
#[derive(Debug)]
pub struct LedgerCopy {
    pub ref_no: String,
    pub description: String,
    pub category: String,
    pub party_name: String,
    pub spent_by: String,
    pub voucher_no: String,
}

/// The reference of a ledger copy: `TRP-` and the first eight characters
/// of the expense id, upper-cased.
pub open spec fn ledger_ref_spec(id_text: Seq<char>) -> Seq<char> {
    "TRP-"@ + uppercase_of(id_text.subrange(0, 8))
}

/// The description of a ledger copy.
pub open spec fn ledger_description_spec(type_val: Seq<char>, vendor: Seq<char>, vehicle_no: Seq<char>) -> Seq<
    char,
> {
    "Transport "@ + type_val + " expense: "@ + vendor + " (Vehicle: "@ + vehicle_no + ")"@
}

/// The copy of a recorded vehicle expense that goes into the general
/// expense ledger, from the expense's id text (its hyphenated UUID): the
/// reference is also the voucher number, the category `Transport`, the
/// party the vendor, and the spender `Transport Dept`.
pub fn ledger_copy(row: &TransportExpenseRow, id_text: &str) -> (r: LedgerCopy)
    requires
        id_text@.len() >= 8,
    ensures
        r.ref_no@ == ledger_ref_spec(id_text@),
        r.voucher_no@ == ledger_ref_spec(id_text@),
        r.description@ == ledger_description_spec(row.type_val@, row.vendor@, row.vehicle_no@),
        r.category@ == "Transport"@,
        r.party_name@ == row.vendor@,
        r.spent_by@ == "Transport Dept"@,
{
    let head = id_text.substring_char(0, 8);
    let up = to_upper(head);
    let mut ref_no = String::from_str("TRP-");
    ref_no.append(up.as_str());
    let mut d = String::from_str("Transport ");
    d.append(row.type_val.as_str());
    d.append(" expense: ");
    d.append(row.vendor.as_str());
    d.append(" (Vehicle: ");
    d.append(row.vehicle_no.as_str());
    d.append(")");
    LedgerCopy {
        voucher_no: ref_no.clone(),
        ref_no,
        description: d,
        category: String::from_str("Transport"),
        party_name: row.vendor.clone(),
        spent_by: String::from_str("Transport Dept"),
    }
}

} // verus!
