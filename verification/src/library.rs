use vstd::prelude::*;
use crate::books::filled_date_ok;
use crate::dates::{
    add_days, ce_day, date_input_spec, date_plus_days, date_text, date_text_spec, day_number,
    read_date, today, CalDate, DateInput,
};
use crate::hostel::{text_or, text_or_default};
use crate::ids::{is_uuid, uuid_parses};
use crate::errors::{bad_request, conflict, not_found, AppError};
use crate::fees::{error_matches, meets, ErrorKindTag};
use crate::filters::{chosen, date_filter, is_chosen, pieces2, pieces4, pieces5, push_date_filter, push_filter};
use crate::query::{
    build_query, filters_view, opt_filter, query_sql_spec, search_spec, search_term,
    strings_view, values_spec, Filter, FilterView, SqlQuery,
};
use crate::sms::opt_view;
use crate::sql_text::{BOOKS_SQL, ISSUES_HANDLER_SQL, MEMBERS_HANDLER_SQL, MEMBERS_SQL, STATS_PART_0, STATS_PART_1, STATS_PART_2, STATS_PART_3, STATS_PART_4, STATS_PART_5, STATS_PART_6, STATS_PART_7, STATS_PART_8, STATS_PART_9};
use crate::text::{
    contains, contains_spec, dec_i64, dec_int_spec, lemma_dec_int_injective, lemma_zero_pad_dec_injective, dec_u64, dec_spec, is_blank, lowercase_of, str_eq, to_lower,
    trim_spec, zero_pad_spec,
};

verus! {

/// Query parameters of the library catalogue listing.
#[derive(Debug)]
pub struct GetBooksQuery {
    pub book_type: Option<String>,
    pub search: Option<String>,
    pub page: Option<i64>,
    pub limit: Option<i64>,
}

/// Query parameters of the library member listing.
#[derive(Debug)]
pub struct GetMembersQuery {
    pub search: Option<String>,
    pub status: Option<String>,
    pub page: Option<i64>,
    pub limit: Option<i64>,
}

/// Query parameters of the book issue listing.
#[derive(Debug)]
pub struct GetIssuesQuery {
    pub status: Option<String>,
    pub start_date: Option<String>,
    pub end_date: Option<String>,
    pub page: Option<i64>,
    pub limit: Option<i64>,
}

/// The filters of the catalogue listing. The search condition compares the
/// serial number without an operator, as the catalogue query always has.
pub open spec fn book_filters(q: GetBooksQuery) -> Seq<FilterView> {
    opt_filter(q.book_type is Some, seq![" AND b.type = "@, ""@], q.book_type->0@) + opt_filter(
        q.search is Some,
        seq![
            " AND (b.title ILIKE "@,
            " OR b.author ILIKE "@,
            " OR b.acc_no ILIKE "@,
            " OR b.sl_no "@,
            ")"@,
        ],
        search_spec(q.search->0@, false),
    )
}

/// The catalogue listing query (paged).
pub fn books_query(q: &GetBooksQuery) -> (r: SqlQuery)
    ensures
        r.sql@ == query_sql_spec(BOOKS_SQL@, 0, book_filters(*q), " ORDER BY b.created_at DESC"@, true),
        strings_view(r.binders@) == values_spec(book_filters(*q)),
{
    let mut fs: Vec<Filter> = Vec::new();
    if let Some(t) = &q.book_type {
        push_filter(&mut fs, pieces2(" AND b.type = ", ""), t.clone());
    }
    if let Some(s) = &q.search {
        push_filter(
            &mut fs,
            pieces5(" AND (b.title ILIKE ", " OR b.author ILIKE ", " OR b.acc_no ILIKE ", " OR b.sl_no ", ")"),
            search_term(s.as_str(), false),
        );
    }
    assert(filters_view(fs@) =~= book_filters(*q));
    let r = build_query(BOOKS_SQL, Vec::new(), fs, " ORDER BY b.created_at DESC", true);
    assert(strings_view(Seq::<String>::empty()) =~= Seq::<Seq<char>>::empty());
    assert(strings_view(r.binders@) =~= values_spec(book_filters(*q)));
    r
}

/// The filters of the member listing of the library service.
pub open spec fn member_filters(q: GetMembersQuery) -> Seq<FilterView> {
    opt_filter(
        q.search is Some,
        seq![" AND (m.name ILIKE "@, " OR m.student_id ILIKE "@, " OR m.phone ILIKE "@, ")"@],
        search_spec(q.search->0@, true),
    ) + opt_filter(chosen(q.status, "All Statuses"@), seq![" AND m.status = "@, ""@], q.status->0@)
}

/// The member listing query of the library service (paged).
pub fn members_query(q: &GetMembersQuery) -> (r: SqlQuery)
    ensures
        r.sql@ == query_sql_spec(MEMBERS_SQL@, 0, member_filters(*q), " ORDER BY m.name ASC"@, true),
        strings_view(r.binders@) == values_spec(member_filters(*q)),
{
    let mut fs: Vec<Filter> = Vec::new();
    if let Some(s) = &q.search {
        push_filter(
            &mut fs,
            pieces4(" AND (m.name ILIKE ", " OR m.student_id ILIKE ", " OR m.phone ILIKE ", ")"),
            search_term(s.as_str(), true),
        );
    }
    if is_chosen(&q.status, "All Statuses") {
        let v = q.status.as_ref().unwrap().clone();
        push_filter(&mut fs, pieces2(" AND m.status = ", ""), v);
    }
    assert(filters_view(fs@) =~= member_filters(*q));
    let r = build_query(MEMBERS_SQL, Vec::new(), fs, " ORDER BY m.name ASC", true);
    assert(strings_view(Seq::<String>::empty()) =~= Seq::<Seq<char>>::empty());
    assert(strings_view(r.binders@) =~= values_spec(member_filters(*q)));
    r
}

/// The filter of the grouped member listing: the search alone, as a
/// `WHERE` clause.
pub open spec fn grouped_member_filters(search: Option<String>) -> Seq<FilterView> {
    opt_filter(
        search is Some,
        seq![" WHERE m.name ILIKE "@, " OR m.student_id ILIKE "@, " OR m.phone ILIKE "@, ""@],
        search_spec(search->0@, false),
    )
}

/// The grouped member listing query (paged).
pub fn grouped_members_query(search: &Option<String>) -> (r: SqlQuery)
    ensures
        r.sql@ == query_sql_spec(
            MEMBERS_HANDLER_SQL@,
            0,
            grouped_member_filters(*search),
            " GROUP BY m.id ORDER BY m.created_at DESC"@,
            true,
        ),
        strings_view(r.binders@) == values_spec(grouped_member_filters(*search)),
{
    let mut fs: Vec<Filter> = Vec::new();
    if let Some(s) = search {
        push_filter(
            &mut fs,
            pieces4(" WHERE m.name ILIKE ", " OR m.student_id ILIKE ", " OR m.phone ILIKE ", ""),
            search_term(s.as_str(), false),
        );
    }
    assert(filters_view(fs@) =~= grouped_member_filters(*search));
    let r = build_query(
        MEMBERS_HANDLER_SQL,
        Vec::new(),
        fs,
        " GROUP BY m.id ORDER BY m.created_at DESC",
        true,
    );
    assert(strings_view(Seq::<String>::empty()) =~= Seq::<Seq<char>>::empty());
    assert(strings_view(r.binders@) =~= values_spec(grouped_member_filters(*search)));
    r
}

/// The first condition of a `WHERE` list starts the list, the others join
/// it with `AND`.
pub open spec fn lead(first: bool) -> Seq<char> {
    if first {
        " WHERE "@
    } else {
        " AND "@
    }
}

/// The conditions of the issue listing: a status other than `all`, then
/// the issue date bounds, joined into one `WHERE` clause.
pub open spec fn issue_filters(q: GetIssuesQuery, start: DateInput, end: DateInput) -> Seq<
    FilterView,
> {
    let has_status = chosen(q.status, "all"@);
    let has_start = start is Valid;
    opt_filter(has_status, seq![" WHERE bi.status = "@, ""@], q.status->0@) + date_filter(
        start,
        seq![lead(!has_status) + "bi.issue_date >= "@, ""@],
    ) + date_filter(end, seq![lead(!has_status && !has_start) + "bi.issue_date <= "@, ""@])
}

/// The bounds of the issue listing are unreadable: the first bad bound's
/// message.
pub open spec fn issue_range_error(start: DateInput, end: DateInput) -> Option<Seq<char>> {
    if start is Invalid {
        Some("Invalid startDate format"@)
    } else if end is Invalid {
        Some("Invalid endDate format"@)
    } else {
        None
    }
}

/// The issue listing query once its bounds are read: a given bound that is
/// no date is refused.
pub fn issues_query_with(q: &GetIssuesQuery, start: DateInput, end: DateInput) -> (r: Result<
    SqlQuery,
    AppError,
>)
    ensures
        match r {
            Ok(x) => issue_range_error(start, end) is None && x.sql@ == query_sql_spec(
                ISSUES_HANDLER_SQL@,
                0,
                issue_filters(*q, start, end),
                " ORDER BY bi.created_at DESC"@,
                true,
            ) && strings_view(x.binders@) == values_spec(issue_filters(*q, start, end)),
            Err(e) => issue_range_error(start, end) matches Some(m) && e.is_bad_request(m),
        },
{
    if let DateInput::Invalid = start {
        return Err(bad_request("Invalid startDate format"));
    }
    if let DateInput::Invalid = end {
        return Err(bad_request("Invalid endDate format"));
    }
    proof {
        reveal_strlit(" WHERE ");
        reveal_strlit(" AND ");
        reveal_strlit("bi.issue_date >= ");
        reveal_strlit("bi.issue_date <= ");
        reveal_strlit(" WHERE bi.issue_date >= ");
        reveal_strlit(" AND bi.issue_date >= ");
        reveal_strlit(" WHERE bi.issue_date <= ");
        reveal_strlit(" AND bi.issue_date <= ");
    }
    let mut fs: Vec<Filter> = Vec::new();
    let has_status = is_chosen(&q.status, "all");
    if has_status {
        let v = q.status.as_ref().unwrap().clone();
        push_filter(&mut fs, pieces2(" WHERE bi.status = ", ""), v);
    }
    let has_start = match start {
        DateInput::Valid(_) => true,
        _ => false,
    };
    if has_status {
        push_date_filter(&mut fs, &start, pieces2(" AND bi.issue_date >= ", ""));
    } else {
        push_date_filter(&mut fs, &start, pieces2(" WHERE bi.issue_date >= ", ""));
    }
    if has_status || has_start {
        push_date_filter(&mut fs, &end, pieces2(" AND bi.issue_date <= ", ""));
    } else {
        push_date_filter(&mut fs, &end, pieces2(" WHERE bi.issue_date <= ", ""));
    }
    assert(" WHERE "@ + "bi.issue_date >= "@ =~= " WHERE bi.issue_date >= "@);
    assert(" AND "@ + "bi.issue_date >= "@ =~= " AND bi.issue_date >= "@);
    assert(" WHERE "@ + "bi.issue_date <= "@ =~= " WHERE bi.issue_date <= "@);
    assert(" AND "@ + "bi.issue_date <= "@ =~= " AND bi.issue_date <= "@);
    assert(filters_view(fs@) =~= issue_filters(*q, start, end));
    let r = build_query(ISSUES_HANDLER_SQL, Vec::new(), fs, " ORDER BY bi.created_at DESC", true);
    assert(strings_view(Seq::<String>::empty()) =~= Seq::<Seq<char>>::empty());
    assert(strings_view(r.binders@) =~= values_spec(issue_filters(*q, start, end)));
    Ok(r)
}

/// The issue listing query: reads the start and end bounds with chrono
/// (an empty bound is no date), then builds the query.
pub fn issues_query(q: &GetIssuesQuery) -> (r: Result<SqlQuery, AppError>)
    ensures
        ({
            let start = date_input_spec(opt_view(q.start_date), false);
            let end = date_input_spec(opt_view(q.end_date), false);
            match r {
                Ok(x) => issue_range_error(start, end) is None && x.sql@ == query_sql_spec(
                    ISSUES_HANDLER_SQL@,
                    0,
                    issue_filters(*q, start, end),
                    " ORDER BY bi.created_at DESC"@,
                    true,
                ) && strings_view(x.binders@) == values_spec(issue_filters(*q, start, end)),
                Err(e) => issue_range_error(start, end) matches Some(m) && e.is_bad_request(m),
            }
        }),
{
    let start = read_date(&q.start_date, false);
    let end = read_date(&q.end_date, false);
    issues_query_with(q, start, end)
}

/// The library statistics query text; `ranged` restricts every count to
/// the bound date range (`$1` to `$2`).
pub open spec fn stats_sql_spec(ranged: bool) -> Seq<char> {
    let b = if ranged {
        " WHERE added_date >= $1::date AND added_date <= $2::date"@
    } else {
        " WHERE 1=1"@
    };
    let m = if ranged {
        " AND created_at >= $1::timestamp AND created_at <= $2::timestamp"@
    } else {
        ""@
    };
    let i = if ranged {
        " AND issue_date >= $1::date AND issue_date <= $2::date"@
    } else {
        ""@
    };
    STATS_PART_0@ + b + STATS_PART_1@ + b + STATS_PART_2@ + b + STATS_PART_3@ + b + STATS_PART_4@ + b + STATS_PART_5@ + m + STATS_PART_6@ + i + STATS_PART_7@ + i + STATS_PART_8@ + i + STATS_PART_9@
}

/// The library statistics query: with both a start and an end date every
/// count is limited to that range and the two dates are bound; with only
/// one of them no range applies. A given range bound that is no date is
/// refused, the start checked first.
pub fn stats_query_with(start_given: bool, end_given: bool, start: DateInput, end: DateInput) -> (r: Result<
    SqlQuery,
    AppError,
>)
    ensures
        ({
            let ranged = start_given && end_given;
            &&& ranged && !(start is Valid) ==> (r matches Err(e) && e.is_bad_request(
                "Invalid startDate format"@,
            ))
            &&& ranged && start is Valid && !(end is Valid) ==> (r matches Err(e)
                && e.is_bad_request("Invalid endDate format"@))
            &&& ranged && start is Valid && end is Valid ==> (r matches Ok(x) && x.sql@
                == stats_sql_spec(true) && strings_view(x.binders@) == seq![
                date_text_spec(
                    start->Valid_0.year as int,
                    start->Valid_0.month as nat,
                    start->Valid_0.day as nat,
                ),
                date_text_spec(end->Valid_0.year as int, end->Valid_0.month as nat, end->Valid_0.day as nat),
            ])
            &&& !ranged ==> (r matches Ok(x) && x.sql@ == stats_sql_spec(false) && x.binders@.len() == 0)
        }),
{
    let mut binders: Vec<String> = Vec::new();
    let ranged = start_given && end_given;
    let mut books = " WHERE 1=1";
    let mut members = "";
    let mut issues = "";
    if ranged {
        let s = match start {
            DateInput::Valid(c) => c,
            _ => {
                return Err(bad_request("Invalid startDate format"));
            },
        };
        let t = match end {
            DateInput::Valid(c) => c,
            _ => {
                return Err(bad_request("Invalid endDate format"));
            },
        };
        binders.push(date_text(&s));
        binders.push(date_text(&t));
        assert(strings_view(binders@) =~= seq![
            date_text_spec(s.year as int, s.month as nat, s.day as nat),
            date_text_spec(t.year as int, t.month as nat, t.day as nat),
        ]);
        books = " WHERE added_date >= $1::date AND added_date <= $2::date";
        members = " AND created_at >= $1::timestamp AND created_at <= $2::timestamp";
        issues = " AND issue_date >= $1::date AND issue_date <= $2::date";
    }
    let mut sql = String::new();
    sql.append(STATS_PART_0);
    sql.append(books);
    sql.append(STATS_PART_1);
    sql.append(books);
    sql.append(STATS_PART_2);
    sql.append(books);
    sql.append(STATS_PART_3);
    sql.append(books);
    sql.append(STATS_PART_4);
    sql.append(books);
    sql.append(STATS_PART_5);
    sql.append(members);
    sql.append(STATS_PART_6);
    sql.append(issues);
    sql.append(STATS_PART_7);
    sql.append(issues);
    sql.append(STATS_PART_8);
    sql.append(issues);
    sql.append(STATS_PART_9);
    assert(sql@ =~= stats_sql_spec(ranged));
    Ok(SqlQuery { sql, binders })
}

/// The library statistics query for the optional start and end dates of a
/// request; the dates are read with chrono only when both are given.
pub fn stats_query(start_date: &Option<String>, end_date: &Option<String>) -> (r: Result<
    SqlQuery,
    AppError,
>)
    ensures
        ({
            let ranged = start_date is Some && end_date is Some;
            let start = date_input_spec(opt_view(*start_date), false);
            let end = date_input_spec(opt_view(*end_date), false);
            &&& ranged && start is Invalid ==> (r matches Err(e) && e.is_bad_request(
                "Invalid startDate format"@,
            ))
            &&& ranged && !(start is Invalid) && end is Invalid ==> (r matches Err(e)
                && e.is_bad_request("Invalid endDate format"@))
            &&& ranged && start is Valid && end is Valid ==> (r matches Ok(x) && x.sql@
                == stats_sql_spec(true) && strings_view(x.binders@) == seq![
                date_text_spec(
                    start->Valid_0.year as int,
                    start->Valid_0.month as nat,
                    start->Valid_0.day as nat,
                ),
                date_text_spec(end->Valid_0.year as int, end->Valid_0.month as nat, end->Valid_0.day as nat),
            ])
            &&& !ranged ==> (r matches Ok(x) && x.sql@ == stats_sql_spec(false) && x.binders@.len() == 0)
        }),
{
    let ranged = start_date.is_some() && end_date.is_some();
    if ranged {
        let start = read_date(start_date, false);
        let end = read_date(end_date, false);
        stats_query_with(true, true, start, end)
    } else {
        stats_query_with(start_date.is_some(), end_date.is_some(), DateInput::Absent, DateInput::Absent)
    }
}

/// How a requested member is looked up: by record id when the text is a
/// UUID, else by student id.
#[derive(Debug)]
pub enum MemberKey {
    RecordId,
    StudentId,
}

/// Chooses how a member reference of an issue request is looked up.
pub fn member_key(member_id: &str) -> (r: MemberKey)
    ensures
        uuid_parses(member_id@) ==> r is RecordId,
        !uuid_parses(member_id@) ==> r is StudentId,
{
    if is_uuid(member_id) {
        MemberKey::RecordId
    } else {
        MemberKey::StudentId
    }
}

/// Whether a borrower needs a library membership made from the student
/// registry (`Ok(true)`), already has one (`Ok(false)`), or is found in
/// neither and cannot borrow.
pub fn member_or_registry(member_found: bool, student_found: bool) -> (r: Result<bool, AppError>)
    ensures
        member_found ==> r == Ok::<bool, AppError>(false),
        !member_found && student_found ==> r == Ok::<bool, AppError>(true),
        !member_found && !student_found ==> (r matches Err(e) && e.is_not_found(
            "Student or library member not found in registry"@,
        )),
{
    if member_found {
        Ok(false)
    } else if student_found {
        Ok(true)
    } else {
        Err(not_found("Student or library member not found in registry"))
    }
}

/// Only an active member may borrow.
pub fn check_member_active(status: &str) -> (r: Result<(), AppError>)
    ensures
        status@ == "active"@ ==> r is Ok,
        status@ != "active"@ ==> (r matches Err(e) && e.is_bad_request(
            "Library member account is inactive"@,
        )),
{
    if str_eq(status, "active") {
        Ok(())
    } else {
        Err(bad_request("Library member account is inactive"))
    }
}

/// The message when a member has reached the issue limit.
pub open spec fn limit_message(max_books: i32) -> Seq<char> {
    "Member already has "@ + dec_int_spec(max_books as int) + " books issued"@
}

/// A member may hold fewer books than the limit at a time.
pub fn check_issue_limit(active_count: i64, max_books: i32) -> (r: Result<(), AppError>)
    ensures
        active_count < max_books ==> r is Ok,
        active_count >= max_books ==> (r matches Err(e) && e.is_bad_request(limit_message(max_books))),
{
    if active_count >= max_books as i64 {
        let mut m = String::from_str("Member already has ");
        let n = dec_i64(max_books as i64);
        m.append(n.as_str());
        m.append(" books issued");
        Err(AppError::BadRequest(m))
    } else {
        Ok(())
    }
}

/// A book can be issued while fewer copies are out than it has; a missing
/// book cannot.
pub fn check_copies(quantity: Option<i32>, issued_count: i64) -> (r: Result<(), AppError>)
    ensures
        quantity is None ==> (r matches Err(e) && e.is_not_found("Book not found"@)),
        (quantity matches Some(q) && issued_count < q) ==> r is Ok,
        (quantity matches Some(q) && issued_count >= q) ==> (r matches Err(e) && e.is_bad_request(
            "No copies available"@,
        )),
{
    match quantity {
        None => Err(not_found("Book not found")),
        Some(q) => {
            if issued_count >= q as i64 {
                Err(bad_request("No copies available"))
            } else {
                Ok(())
            }
        },
    }
}

/// The number of the next issue: `ISS-` and the running count, at least
/// three digits.
pub open spec fn issue_number_spec(total_issues: int) -> Seq<char> {
    "ISS-"@ + zero_pad_spec(dec_spec((total_issues + 1) as nat), 3)
}

/// Numbers a new issue after the issues recorded so far.
pub fn issue_number(total_issues: i64) -> (r: String)
    requires
        0 <= total_issues < i64::MAX,
    ensures
        r@ == issue_number_spec(total_issues as int),
{
    let d = dec_u64((total_issues + 1) as u64);
    let mut r = String::from_str("ISS-");
    let n = d.as_str().unicode_len();
    if n < 3 {
        let mut k: usize = 0;
        let ghost start = r@;
        while k < 3 - n
            invariant
                k <= 3 - n,
                n < 3,
                start == "ISS-"@,
                r@ == start + Seq::new(k as nat, |i: int| '0'),
            decreases 3 - n - k,
        {
            r.append("0");
            proof {
                reveal_strlit("0");
            }
            assert(r@ =~= start + Seq::new((k + 1) as nat, |i: int| '0'));
            k = k + 1;
        }
    }
    r.append(d.as_str());
    assert(r@ =~= issue_number_spec(total_issues as int));
    r
}

/// Different counts of earlier issues give different issue numbers, so
/// each new issue is numbered apart from those before it.
pub proof fn law_issue_numbers_differ(count: int, count2: int)
    requires
        0 <= count,
        0 <= count2,
        count != count2,
    ensures
        issue_number_spec(count) != issue_number_spec(count2),
{
    reveal_strlit("ISS-");
    let a = issue_number_spec(count);
    let b = issue_number_spec(count2);
    if a == b {
        let pa = zero_pad_spec(dec_spec((count + 1) as nat), 3);
        let pb = zero_pad_spec(dec_spec((count2 + 1) as nat), 3);
        assert(pa =~= a.subrange(4, a.len() as int));
        assert(pb =~= b.subrange(4, b.len() as int));
        lemma_zero_pad_dec_injective((count + 1) as nat, (count2 + 1) as nat, 3);
    }
}

/// The checks of an issue request, in the order the issue screen makes
/// them once the member is known: the member's account must be active, the
/// member must hold fewer than `max_books` active issues, the book must
/// exist (`quantity` is its number of copies), and fewer than `quantity`
/// of its copies may be out.
pub open spec fn issue_checks_spec(
    status: Seq<char>,
    active_count: int,
    max_books: i32,
    quantity: Option<i32>,
    issued_count: int,
) -> Result<(), (ErrorKindTag, Seq<char>)> {
    if status != "active"@ {
        Err((ErrorKindTag::BadRequest, "Library member account is inactive"@))
    } else if active_count >= max_books {
        Err((ErrorKindTag::BadRequest, limit_message(max_books)))
    } else {
        match quantity {
            None => Err((ErrorKindTag::NotFound, "Book not found"@)),
            Some(q) => if issued_count >= q {
                Err((ErrorKindTag::BadRequest, "No copies available"@))
            } else {
                Ok(())
            },
        }
    }
}

/// Runs the checks of an issue request in order.
pub fn issue_checks(
    status: &str,
    active_count: i64,
    max_books: i32,
    quantity: Option<i32>,
    issued_count: i64,
) -> (r: Result<(), AppError>)
    ensures
        meets(r, issue_checks_spec(status@, active_count as int, max_books, quantity, issued_count as int)),
{
    let a = check_member_active(status);
    if a.is_err() {
        return a;
    }
    let b = check_issue_limit(active_count, max_books);
    if b.is_err() {
        return b;
    }
    match check_copies(quantity, issued_count) {
        Ok(_) => Ok(()),
        Err(e) => Err(e),
    }
}

/// Decides an issue request once the member is known and the counts are
/// read: the checks of `issue_checks_spec`, then the number of the new
/// issue after the `total_issues` recorded so far.
pub fn plan_issue(
    status: &str,
    active_count: i64,
    max_books: i32,
    quantity: Option<i32>,
    issued_count: i64,
    total_issues: i64,
) -> (r: Result<String, AppError>)
    requires
        0 <= total_issues < i64::MAX,
    ensures
        match issue_checks_spec(status@, active_count as int, max_books, quantity, issued_count as int) {
            Ok(_) => r matches Ok(n) && n@ == issue_number_spec(total_issues as int),
            Err(named) => r matches Err(e) && error_matches(e, named),
        },
{
    issue_checks(status, active_count, max_books, quantity, issued_count)?;
    Ok(issue_number(total_issues))
}

/// An issue that the checks allow keeps both limits: with the new issue
/// counted, the member holds at most `max_books` active issues and at most
/// `quantity` copies of the book are out. So if the limits held before
/// the issue, they still hold after it.
pub proof fn law_issue_keeps_limits(
    status: Seq<char>,
    active_count: int,
    max_books: i32,
    quantity: Option<i32>,
    issued_count: int,
)
    requires
        issue_checks_spec(status, active_count, max_books, quantity, issued_count) is Ok,
    ensures
        status == "active"@,
        active_count + 1 <= max_books,
        quantity matches Some(q) && issued_count + 1 <= q,
{
}

/// An issue request is allowed exactly when the member's account is
/// active, the member holds fewer than `max_books` active issues, and the
/// book exists with fewer than its number of copies out; an inactive
/// account is refused first, whatever the counts.
pub proof fn law_issue_allowed_iff_within_limits(
    status: Seq<char>,
    active_count: int,
    max_books: i32,
    quantity: Option<i32>,
    issued_count: int,
)
    ensures
        issue_checks_spec(status, active_count, max_books, quantity, issued_count) is Ok <==> (status
            == "active"@ && active_count < max_books && (quantity matches Some(q) && issued_count < q)),
        status != "active"@ ==> issue_checks_spec(status, active_count, max_books, quantity, issued_count)
            == Err::<(), (ErrorKindTag, Seq<char>)>(
            (ErrorKindTag::BadRequest, "Library member account is inactive"@),
        ),
{
}

/// What the loan store holds: each member's active issues (issued or
/// overdue), each book's active issues and copies, and the number of
/// issues recorded. A member or book missing from a count map has none.
pub struct LoanState {
    pub member_active: Map<int, int>,
    pub book_active: Map<int, int>,
    pub copies: Map<int, i32>,
    pub total_issues: int,
}

/// A count that a map may not hold: zero then.
pub open spec fn count_of(m: Map<int, int>, k: int) -> int {
    if m.dom().contains(k) {
        m[k]
    } else {
        0
    }
}

/// The limits of the loan store: no member holds more than `max_books`
/// active issues and no book has more copies out than it has.
pub open spec fn loan_limits_hold(s: LoanState, max_books: i32) -> bool {
    &&& forall|m: int| #[trigger] count_of(s.member_active, m) <= max_books
    &&& forall|b: int|
        #[trigger] count_of(s.book_active, b) <= (if s.copies.dom().contains(b) {
            s.copies[b] as int
        } else {
            0
        })
}

/// An issue of book `b` to member `m` (whose account has `status`) on a
/// stored state: refused as `issue_checks_spec` says over the counts the
/// store holds, else numbered after the issues recorded so far, with one
/// more active issue for the member and for the book.
pub open spec fn loan_issue_step(s: LoanState, status: Seq<char>, max_books: i32, m: int, b: int) -> Result<
    (Seq<char>, LoanState),
    (ErrorKindTag, Seq<char>),
> {
    let quantity = if s.copies.dom().contains(b) {
        Some(s.copies[b])
    } else {
        None
    };
    match issue_checks_spec(status, count_of(s.member_active, m), max_books, quantity, count_of(s.book_active, b)) {
        Err(e) => Err(e),
        Ok(_) => Ok(
            (
                issue_number_spec(s.total_issues),
                LoanState {
                    member_active: s.member_active.insert(m, count_of(s.member_active, m) + 1),
                    book_active: s.book_active.insert(b, count_of(s.book_active, b) + 1),
                    copies: s.copies,
                    total_issues: s.total_issues + 1,
                },
            ),
        ),
    }
}

/// Every issue that the checks allow keeps the limits of the whole store:
/// if no member was over `max_books` and no book had more copies out than
/// it has, that still holds after the issue. The issue takes the number
/// after those recorded, and only the member's and the book's counts move,
/// by one each.
pub proof fn law_issue_step_keeps_store_limits(s: LoanState, status: Seq<char>, max_books: i32, m: int, b: int)
    requires
        loan_limits_hold(s, max_books),
        loan_issue_step(s, status, max_books, m, b) is Ok,
    ensures
        ({
            let (no, s2) = loan_issue_step(s, status, max_books, m, b)->Ok_0;
            &&& loan_limits_hold(s2, max_books)
            &&& no == issue_number_spec(s.total_issues)
            &&& s2.total_issues == s.total_issues + 1
            &&& count_of(s2.member_active, m) == count_of(s.member_active, m) + 1
            &&& count_of(s2.book_active, b) == count_of(s.book_active, b) + 1
            &&& forall|x: int| x != m ==> #[trigger] count_of(s2.member_active, x) == count_of(s.member_active, x)
            &&& forall|x: int| x != b ==> #[trigger] count_of(s2.book_active, x) == count_of(s.book_active, x)
        }),
{
    let (no, s2) = loan_issue_step(s, status, max_books, m, b)->Ok_0;
    assert forall|x: int| #[trigger] count_of(s2.member_active, x) <= max_books by {
        assert(count_of(s.member_active, x) <= max_books);
    }
    assert forall|x: int|
        #[trigger] count_of(s2.book_active, x) <= (if s2.copies.dom().contains(x) {
            s2.copies[x] as int
        } else {
            0
        }) by {
        assert(count_of(s.book_active, x) <= (if s.copies.dom().contains(x) {
            s.copies[x] as int
        } else {
            0
        }));
    }
}

/// The date of an issue or of a new book: the given date, or `today` when
/// none (or an empty text) is given. A given text that is no date is not
/// accepted.
pub fn given_or_today(given: DateInput, today: CalDate) -> (r: CalDate)
    requires
        !(given is Invalid),
    ensures
        given matches DateInput::Valid(c) ==> r == c,
        given is Absent ==> r == today,
{
    match given {
        DateInput::Valid(c) => c,
        _ => today,
    }
}

/// The due date of an issue: the given one, else the issue date plus the
/// loan period; `None` when chrono cannot form that date.
pub fn due_date(issue_date: &CalDate, given: DateInput, loan_days: i32) -> (r: Option<CalDate>)
    requires
        !(given is Invalid),
    ensures
        given matches DateInput::Valid(c) ==> r == Some(c),
        given is Absent ==> match r {
            Some(x) => date_plus_days(issue_date.year, issue_date.month, issue_date.day, loan_days)
                == Some((x.year, x.month, x.day)),
            None => date_plus_days(issue_date.year, issue_date.month, issue_date.day, loan_days) is None,
        },
{
    match given {
        DateInput::Valid(c) => Some(c),
        _ => add_days(issue_date, loan_days),
    }
}

/// Checks a return: the issue must exist and still be out. The issue is
/// its status, when found.
pub fn check_book_return(issue_status: Option<String>) -> (r: Result<(), AppError>)
    ensures
        issue_status is None ==> (r matches Err(e) && e.is_not_found("Issue record not found"@)),
        (issue_status matches Some(s) && s@ == "returned"@) ==> (r matches Err(e)
            && e.is_bad_request("Book already returned"@)),
        (issue_status matches Some(s) && s@ != "returned"@) ==> r is Ok,
{
    match issue_status {
        None => Err(not_found("Issue record not found")),
        Some(s) => {
            if str_eq(s.as_str(), "returned") {
                Err(bad_request("Book already returned"))
            } else {
                Ok(())
            }
        },
    }
}

/// Days past the due date, zero when the book is not late.
pub open spec fn overdue_days_spec(today: int, due: int) -> int {
    if today > due {
        today - due
    } else {
        0
    }
}

/// The whole days by which a loan due on `due` is overdue on `today`,
/// over chrono's day counts; `None` where either is no calendar date.
pub open spec fn overdue_of(today: CalDate, due: CalDate) -> Option<i64> {
    match (ce_day(today.year, today.month, today.day), ce_day(due.year, due.month, due.day)) {
        (Some(t), Some(d)) => Some(overdue_days_spec(t as int, d as int) as i64),
        _ => None,
    }
}

/// The days a return is late, from chrono's day counts of the two dates;
/// `None` when either is no calendar date.
pub fn overdue_days(today: &CalDate, due: &CalDate) -> (r: Option<i64>)
    ensures
        r == overdue_of(*today, *due),
{
    let t = day_number(today);
    let d = day_number(due);
    match (t, d) {
        (Some(t), Some(d)) => {
            if t > d {
                Some(t as i64 - d as i64)
            } else {
                Some(0)
            }
        },
        _ => None,
    }
}

/// `overdue_days` on today's date.
pub fn overdue_days_now(due: &CalDate) -> (r: Option<i64>)
    ensures
        exists|t: CalDate| 1 <= t.month <= 12 && 1 <= t.day <= 31 && r == #[trigger] overdue_of(t, *due),
{
    let t = today();
    overdue_days(&t, due)
}

/// The issue date of a new loan: the given one when given and not empty,
/// else today.
pub open spec fn loan_start(issue: Option<String>, today: CalDate) -> CalDate {
    match date_input_spec(opt_view(issue), true) {
        DateInput::Valid(c) => c,
        _ => today,
    }
}

/// The due date of a new loan: the given one when given and not empty,
/// else chrono's date the loan period after the issue date (`None` where
/// that leaves chrono's range).
pub open spec fn loan_end(due: Option<String>, start: CalDate, loan_days: i32) -> Option<CalDate> {
    match date_input_spec(opt_view(due), true) {
        DateInput::Valid(c) => Some(c),
        _ => match date_plus_days(start.year, start.month, start.day, loan_days) {
            Some((y, m, d)) => Some(CalDate { year: y, month: m, day: d }),
            None => None,
        },
    }
}

/// The issue and due dates of a new loan, as `loan_start` and `loan_end`
/// give them.
pub open spec fn loan_of(issue: Option<String>, due: Option<String>, loan_days: i32, today: CalDate) -> Option<
    (CalDate, CalDate),
> {
    let start = loan_start(issue, today);
    match loan_end(due, start, loan_days) {
        Some(end) => Some((start, end)),
        None => None,
    }
}

/// The dates of a new loan. Given, non-empty dates must be dates.
pub fn loan_dates(issue: &Option<String>, due: &Option<String>, loan_days: i32, today: CalDate) -> (r: Option<
    (CalDate, CalDate),
>)
    requires
        filled_date_ok(*issue),
        filled_date_ok(*due),
    ensures
        r == loan_of(*issue, *due, loan_days, today),
{
    let start = given_or_today(read_date(issue, true), today);
    let given = read_date(due, true);
    match due_date(&start, given, loan_days) {
        Some(end) => Some((start, end)),
        None => None,
    }
}

/// `loan_dates` on today's date.
pub fn loan_dates_now(issue: &Option<String>, due: &Option<String>, loan_days: i32) -> (r: Option<
    (CalDate, CalDate),
>)
    requires
        filled_date_ok(*issue),
        filled_date_ok(*due),
    ensures
        exists|t: CalDate|
            1 <= t.month <= 12 && 1 <= t.day <= 31 && r == #[trigger] loan_of(*issue, *due, loan_days, t),
{
    let t = today();
    loan_dates(issue, due, loan_days, t)
}

/// A loan is overdue exactly when today is past its due date, never by a
/// negative count, and once due each further day adds one overdue day.
pub proof fn law_overdue_grows_by_day(today: int, due: int)
    ensures
        (overdue_days_spec(today, due) > 0) == (today > due),
        today >= due ==> overdue_days_spec(today + 1, due) == overdue_days_spec(today, due) + 1,
        overdue_days_spec(today, due) >= 0,
{
}

/// Whether an imported return row is processed: it needs an issue number,
/// an issue of that number, and that issue must still be out.
pub fn import_return_applies(issue_no: &str, issue_status: &Option<String>) -> (r: bool)
    ensures
        r == (trim_spec(issue_no@).len() != 0 && issue_status is Some && issue_status->0@
            != "returned"@),
{
    if is_blank(issue_no) {
        return false;
    }
    match issue_status {
        None => false,
        Some(s) => !str_eq(s.as_str(), "returned"),
    }
}

/// How a library fine payment is recorded.
#[derive(Debug)]
pub struct FineCollection {
    pub waived: bool,
    pub payment_mode: String,
    pub remarks: String,
}

/// The record of a fine marked paid: remarks mentioning `waived` (any
/// letter case) record a waiver, otherwise a cash payment with the
/// remarks quoted.
pub fn fine_collection(remarks: &str) -> (r: FineCollection)
    ensures
        r.waived == contains_spec(lowercase_of(remarks@), "waived"@),
        r.waived ==> r.payment_mode@ == "Waived"@ && r.remarks@ == "Waived by Librarian"@,
        !r.waived ==> r.payment_mode@ == "Cash"@ && r.remarks@ == "Paid to Library - "@ + remarks@,
{
    let l = to_lower(remarks);
    let waived = contains(l.as_str(), "waived");
    if waived {
        FineCollection {
            waived,
            payment_mode: String::from_str("Waived"),
            remarks: String::from_str("Waived by Librarian"),
        }
    } else {
        let mut m = String::from_str("Paid to Library - ");
        m.append(remarks);
        FineCollection { waived, payment_mode: String::from_str("Cash"), remarks: m }
    }
}

/// The receipt number of a fine collected on the library screens:
/// `LIB-COLL-` and the stamp.
pub open spec fn fine_receipt_spec(stamp: int) -> Seq<char> {
    "LIB-COLL-"@ + dec_int_spec(stamp)
}

/// The receipt number of a fine collected with the given stamp.
pub fn fine_receipt(stamp: i64) -> (r: String)
    ensures
        r@ == fine_receipt_spec(stamp as int),
{
    let mut m = String::from_str("LIB-COLL-");
    let d = dec_i64(stamp);
    m.append(d.as_str());
    m
}

/// Fines collected at different times get different receipt numbers.
pub proof fn law_fine_receipts_differ(stamp: int, stamp2: int)
    requires
        stamp != stamp2,
    ensures
        fine_receipt_spec(stamp) != fine_receipt_spec(stamp2),
{
    reveal_strlit("LIB-COLL-");
    let a = fine_receipt_spec(stamp);
    let b = fine_receipt_spec(stamp2);
    if a == b {
        assert(dec_int_spec(stamp) =~= a.subrange(9, a.len() as int));
        assert(dec_int_spec(stamp2) =~= b.subrange(9, b.len() as int));
        lemma_dec_int_injective(stamp, stamp2);
    }
}

/// The current time in milliseconds since the Unix epoch
/// (`chrono::Utc::now().timestamp_millis()`). It depends on the clock, so
/// nothing is stated of it.
#[verifier::external_body]
fn now_millis() -> (t: i64) {
    chrono::Utc::now().timestamp_millis()
}

/// The receipt number of a fine collected now, stamped in milliseconds.
pub fn fresh_fine_receipt() -> (r: String)
    ensures
        exists|stamp: i64| r@ == fine_receipt_spec(stamp as int),
{
    let t = now_millis();
    fine_receipt(t)
}

/// How settling a fine through the fee screen changes the issue.
#[derive(Debug)]
pub struct FineSettlement {
    pub fine_paid: bool,
    pub issue_remarks: String,
}

/// A fine settled from the fee screen is paid when nothing stays due or
/// the payment mode (default `Cash`) is `Waived`; the issue's remarks
/// become `Waived` for a waiver, else the given remarks or `Paid`.
pub fn fine_settlement(payment_mode: &Option<String>, nothing_due: bool, remarks: &Option<String>) -> (r:
    FineSettlement)
    ensures
        ({
            let mode = text_or(*payment_mode, "Cash"@);
            &&& r.fine_paid == (nothing_due || mode == "Waived"@)
            &&& r.issue_remarks@ == (if mode == "Waived"@ {
                "Waived"@
            } else {
                text_or(*remarks, "Paid"@)
            })
        }),
{
    let mode = text_or_default(payment_mode, "Cash");
    let waived = str_eq(mode.as_str(), "Waived");
    FineSettlement {
        fine_paid: nothing_due || waived,
        issue_remarks: if waived {
            String::from_str("Waived")
        } else {
            text_or_default(remarks, "Paid")
        },
    }
}

/// Copies on the shelf: all copies less those issued or overdue, never
/// below zero.
pub fn available_copies(total: i64, issued: i64, overdue: i64) -> (r: i64)
    requires
        i64::MIN <= total - issued - overdue <= i64::MAX,
        i64::MIN <= total - issued <= i64::MAX,
    ensures
        r == (if total - issued - overdue > 0 {
            total - issued - overdue
        } else {
            0
        }),
{
    let a = total - issued - overdue;
    if a > 0 {
        a
    } else {
        0
    }
}

/// A new book's accession number must be unused.
pub fn check_acc_no_free(taken: bool) -> (r: Result<(), AppError>)
    ensures
        taken ==> (r matches Err(e) && e.is_conflict("Accession number already exists"@)),
        !taken ==> r is Ok,
{
    if taken {
        Err(conflict("Accession number already exists"))
    } else {
        Ok(())
    }
}

/// The date a book was added, as the library service reads it: the given
/// date, `today` when none (or an empty text) is given, and a refusal for
/// a text that is no date.
pub fn added_date(given: DateInput, today: CalDate) -> (r: Result<CalDate, AppError>)
    ensures
        given matches DateInput::Valid(c) ==> r == Ok::<CalDate, AppError>(c),
        given is Absent ==> r == Ok::<CalDate, AppError>(today),
        given is Invalid ==> (r matches Err(e) && e.is_bad_request("Invalid added_date format"@)),
{
    match given {
        DateInput::Valid(c) => Ok(c),
        DateInput::Absent => Ok(today),
        DateInput::Invalid => Err(bad_request("Invalid added_date format")),
    }
}

/// A book with copies out cannot be deleted.
pub fn check_book_removable(has_active_issues: bool) -> (r: Result<(), AppError>)
    ensures
        has_active_issues ==> (r matches Err(e) && e.is_bad_request(
            "Cannot delete book with active issues"@,
        )),
        !has_active_issues ==> r is Ok,
{
    if has_active_issues {
        Err(bad_request("Cannot delete book with active issues"))
    } else {
        Ok(())
    }
}

/// A student can be registered as a member only once.
pub fn check_member_new(registered: bool) -> (r: Result<(), AppError>)
    ensures
        registered ==> (r matches Err(e) && e.is_conflict("Student ID already registered"@)),
        !registered ==> r is Ok,
{
    if registered {
        Err(conflict("Student ID already registered"))
    } else {
        Ok(())
    }
}

/// An imported member row is used when it has a student id and a name;
/// its status defaults to `active`.
pub fn import_member_status(student_id: &str, name: &str, status: &Option<String>) -> (r: Option<
    String,
>)
    ensures
        (trim_spec(student_id@).len() == 0 || trim_spec(name@).len() == 0) ==> r is None,
        (trim_spec(student_id@).len() != 0 && trim_spec(name@).len() != 0) ==> (r matches Some(s)
            && s@ == text_or(*status, "active"@)),
{
    if is_blank(student_id) || is_blank(name) {
        return None;
    }
    Some(text_or_default(status, "active"))
}

} // verus!
