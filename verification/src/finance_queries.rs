use vstd::prelude::*;
use crate::dates::{read_date, date_input_spec, DateInput};
use crate::errors::{bad_request, AppError};
use crate::filters::{
    chosen, date_filter, is_chosen, pieces2, pieces4, pieces5, pieces6, push_date_filter,
    push_filter,
};
use crate::query::{
    build_query, filters_view, opt_filter, query_sql_spec, search_spec, search_term,
    strings_view, values_spec, Filter, FilterView, SqlQuery,
};
use crate::sms::opt_view;
use crate::sql_text::{EXPENSES_SERVICE_SQL, EXPENSES_SQL, FEES_SQL, LIBRARY_FEES_SQL};
use crate::text::str_eq;

verus! {

/// Query parameters of the fee collection listing.
#[derive(Debug)]
pub struct GetFeesQuery {
    pub search: Option<String>,
    pub class_name: Option<String>,
    pub course_name: Option<String>,
    pub from_date: Option<String>,
    pub to_date: Option<String>,
    pub page: Option<i64>,
    pub limit: Option<i64>,
}

/// Query parameters of the general expense listing.
#[derive(Debug)]
pub struct GetExpensesQuery {
    pub search: Option<String>,
    pub category: Option<String>,
    pub from_date: Option<String>,
    pub to_date: Option<String>,
    pub start_date: Option<String>,
    pub end_date: Option<String>,
    pub page: Option<i64>,
    pub limit: Option<i64>,
}

/// The filters of the library fines listing.
pub open spec fn library_fee_filters(q: GetFeesQuery, from: DateInput, to: DateInput) -> Seq<
    FilterView,
> {
    opt_filter(
        q.search is Some,
        seq![" AND (student_name ILIKE "@, " OR student_id ILIKE "@, " OR room ILIKE "@, ")"@],
        search_spec(q.search->0@, false),
    ) + opt_filter(
        chosen(q.class_name, "All Classes"@),
        seq![" AND class = "@, ""@],
        q.class_name->0@,
    ) + date_filter(
        from,
        seq![
            " AND (payment_date >= "@,
            "::date OR (payment_date IS NULL AND created_at::date >= "@,
            "::date))"@,
        ],
    ) + date_filter(
        to,
        seq![
            " AND (payment_date <= "@,
            "::date OR (payment_date IS NULL AND created_at::date <= "@,
            "::date))"@,
        ],
    )
}

/// The filters of the fee listing of one fee type.
pub open spec fn fee_filters(q: GetFeesQuery, from: DateInput, to: DateInput) -> Seq<FilterView> {
    opt_filter(
        q.search is Some,
        seq![" AND (s.name ILIKE "@, " OR f.student_id ILIKE "@, " OR f.receipt_no ILIKE "@, ")"@],
        search_spec(q.search->0@, false),
    ) + opt_filter(
        chosen(q.class_name, "All Classes"@),
        seq![" AND s.class_name = "@, ""@],
        q.class_name->0@,
    ) + date_filter(from, seq![" AND f.payment_date >= "@, "::date"@]) + date_filter(
        to,
        seq![" AND f.payment_date <= "@, "::date"@],
    )
}

/// The date range of a listing is unreadable: the first bad bound's
/// message, the lower bound checked first.
pub open spec fn range_error(from: DateInput, to: DateInput) -> Option<Seq<char>> {
    if from is Invalid {
        Some("Invalid fromDate"@)
    } else if to is Invalid {
        Some("Invalid toDate"@)
    } else {
        None
    }
}

/// The SQL of the fee listing for a fee type: library fines come from
/// their own union query, every other fee type from the fee collections
/// of that type (bound as the first parameter).
pub open spec fn fee_records_sql(
    fee_type: Seq<char>,
    q: GetFeesQuery,
    from: DateInput,
    to: DateInput,
) -> Seq<char> {
    if fee_type == "library"@ {
        query_sql_spec(
            LIBRARY_FEES_SQL@,
            0,
            library_fee_filters(q, from, to),
            " ORDER BY payment_date DESC NULLS LAST, created_at DESC"@,
            true,
        )
    } else {
        query_sql_spec(
            FEES_SQL@,
            1,
            fee_filters(q, from, to),
            " ORDER BY f.payment_date DESC, f.created_at DESC"@,
            true,
        )
    }
}

/// The values bound by the fee listing for a fee type.
pub open spec fn fee_records_binders(
    fee_type: Seq<char>,
    q: GetFeesQuery,
    from: DateInput,
    to: DateInput,
) -> Seq<Seq<char>> {
    if fee_type == "library"@ {
        values_spec(library_fee_filters(q, from, to))
    } else {
        seq![fee_type] + values_spec(fee_filters(q, from, to))
    }
}

/// The fee listing query for a fee type, once its date bounds are read:
/// a bound that is given, non-empty and no date is refused.
pub fn fee_records_query_with(
    fee_type: &str,
    q: &GetFeesQuery,
    from: DateInput,
    to: DateInput,
) -> (r: Result<SqlQuery, AppError>)
    ensures
        match r {
            Ok(x) => range_error(from, to) is None && x.sql@ == fee_records_sql(
                fee_type@,
                *q,
                from,
                to,
            ) && strings_view(x.binders@) == fee_records_binders(fee_type@, *q, from, to),
            Err(e) => range_error(from, to) matches Some(m) && e.is_bad_request(m),
        },
{
    if let DateInput::Invalid = from {
        return Err(bad_request("Invalid fromDate"));
    }
    if let DateInput::Invalid = to {
        return Err(bad_request("Invalid toDate"));
    }
    let library = str_eq(fee_type, "library");
    let mut fs: Vec<Filter> = Vec::new();
    if let Some(s) = &q.search {
        let p = if library {
            pieces4(" AND (student_name ILIKE ", " OR student_id ILIKE ", " OR room ILIKE ", ")")
        } else {
            pieces4(" AND (s.name ILIKE ", " OR f.student_id ILIKE ", " OR f.receipt_no ILIKE ", ")")
        };
        push_filter(&mut fs, p, search_term(s.as_str(), false));
    }
    if is_chosen(&q.class_name, "All Classes") {
        let c = q.class_name.as_ref().unwrap().clone();
        let p = if library {
            pieces2(" AND class = ", "")
        } else {
            pieces2(" AND s.class_name = ", "")
        };
        push_filter(&mut fs, p, c);
    }
    if library {
        push_date_filter(
            &mut fs,
            &from,
            crate::filters::pieces3(
                " AND (payment_date >= ",
                "::date OR (payment_date IS NULL AND created_at::date >= ",
                "::date))",
            ),
        );
        push_date_filter(
            &mut fs,
            &to,
            crate::filters::pieces3(
                " AND (payment_date <= ",
                "::date OR (payment_date IS NULL AND created_at::date <= ",
                "::date))",
            ),
        );
        assert(filters_view(fs@) =~= library_fee_filters(*q, from, to));
        Ok(
            build_query(
                LIBRARY_FEES_SQL,
                Vec::new(),
                fs,
                " ORDER BY payment_date DESC NULLS LAST, created_at DESC",
                true,
            ),
        )
    } else {
        push_date_filter(&mut fs, &from, pieces2(" AND f.payment_date >= ", "::date"));
        push_date_filter(&mut fs, &to, pieces2(" AND f.payment_date <= ", "::date"));
        assert(filters_view(fs@) =~= fee_filters(*q, from, to));
        let mut init: Vec<String> = Vec::new();
        init.push(String::from_str(fee_type));
        assert(strings_view(init@) =~= seq![fee_type@]);
        Ok(
            build_query(
                FEES_SQL,
                init,
                fs,
                " ORDER BY f.payment_date DESC, f.created_at DESC",
                true,
            ),
        )
    }
}

/// The fee listing query for a fee type: reads the `fromDate` and `toDate`
/// bounds (empty means none) with chrono, then builds the query.
pub fn fee_records_query(fee_type: &str, q: &GetFeesQuery) -> (r: Result<SqlQuery, AppError>)
    ensures
        ({
            let from = date_input_spec(opt_view(q.from_date), true);
            let to = date_input_spec(opt_view(q.to_date), true);
            match r {
                Ok(x) => range_error(from, to) is None && x.sql@ == fee_records_sql(
                    fee_type@,
                    *q,
                    from,
                    to,
                ) && strings_view(x.binders@) == fee_records_binders(fee_type@, *q, from, to),
                Err(e) => range_error(from, to) matches Some(m) && e.is_bad_request(m),
            }
        }),
{
    let from = read_date(&q.from_date, true);
    let to = read_date(&q.to_date, true);
    fee_records_query_with(fee_type, q, from, to)
}

/// The filters of the general expense listing.
pub open spec fn expense_filters(q: GetExpensesQuery, from: DateInput, to: DateInput) -> Seq<
    FilterView,
> {
    opt_filter(
        q.search is Some,
        seq![
            " AND (description ILIKE "@,
            " OR ref_no ILIKE "@,
            " OR utr ILIKE "@,
            " OR party_name ILIKE "@,
            " OR voucher_no ILIKE "@,
            ")"@,
        ],
        search_spec(q.search->0@, false),
    ) + opt_filter(
        chosen(q.category, "All Categories"@),
        seq![" AND category = "@, ""@],
        q.category->0@,
    ) + date_filter(from, seq![" AND date >= "@, "::date"@]) + date_filter(
        to,
        seq![" AND date <= "@, "::date"@],
    )
}

/// The general expense listing query once its `fromDate` and `toDate`
/// bounds are read; a bound that is given, non-empty and no date is
/// refused.
pub fn expenses_query_with(q: &GetExpensesQuery, from: DateInput, to: DateInput) -> (r: Result<
    SqlQuery,
    AppError,
>)
    ensures
        match r {
            Ok(x) => range_error(from, to) is None && x.sql@ == query_sql_spec(
                EXPENSES_SQL@,
                0,
                expense_filters(*q, from, to),
                " ORDER BY date DESC, created_at DESC"@,
                true,
            ) && strings_view(x.binders@) == values_spec(expense_filters(*q, from, to)),
            Err(e) => range_error(from, to) matches Some(m) && e.is_bad_request(m),
        },
{
    if let DateInput::Invalid = from {
        return Err(bad_request("Invalid fromDate"));
    }
    if let DateInput::Invalid = to {
        return Err(bad_request("Invalid toDate"));
    }
    let mut fs: Vec<Filter> = Vec::new();
    if let Some(s) = &q.search {
        push_filter(
            &mut fs,
            pieces6(
                " AND (description ILIKE ",
                " OR ref_no ILIKE ",
                " OR utr ILIKE ",
                " OR party_name ILIKE ",
                " OR voucher_no ILIKE ",
                ")",
            ),
            search_term(s.as_str(), false),
        );
    }
    if is_chosen(&q.category, "All Categories") {
        let c = q.category.as_ref().unwrap().clone();
        push_filter(&mut fs, pieces2(" AND category = ", ""), c);
    }
    push_date_filter(&mut fs, &from, pieces2(" AND date >= ", "::date"));
    push_date_filter(&mut fs, &to, pieces2(" AND date <= ", "::date"));
    assert(filters_view(fs@) =~= expense_filters(*q, from, to));
    let r = build_query(EXPENSES_SQL, Vec::new(), fs, " ORDER BY date DESC, created_at DESC", true);
    assert(strings_view(Seq::<String>::empty()) =~= Seq::<Seq<char>>::empty());
    assert(strings_view(r.binders@) =~= values_spec(expense_filters(*q, from, to)));
    Ok(r)
}

/// The general expense listing query: reads the `fromDate` and `toDate`
/// bounds (empty means none) with chrono, then builds the query.
pub fn expenses_query(q: &GetExpensesQuery) -> (r: Result<SqlQuery, AppError>)
    ensures
        ({
            let from = date_input_spec(opt_view(q.from_date), true);
            let to = date_input_spec(opt_view(q.to_date), true);
            match r {
                Ok(x) => range_error(from, to) is None && x.sql@ == query_sql_spec(
                    EXPENSES_SQL@,
                    0,
                    expense_filters(*q, from, to),
                    " ORDER BY date DESC, created_at DESC"@,
                    true,
                ) && strings_view(x.binders@) == values_spec(expense_filters(*q, from, to)),
                Err(e) => range_error(from, to) matches Some(m) && e.is_bad_request(m),
            }
        }),
{
    let from = read_date(&q.from_date, true);
    let to = read_date(&q.to_date, true);
    expenses_query_with(q, from, to)
}

/// The first of two optional fields that is given.
pub open spec fn first_given(a: Option<String>, b: Option<String>) -> Option<String> {
    if a is Some {
        a
    } else {
        b
    }
}

/// The filters of the expense listing as the finance service builds it:
/// the search is trimmed, and a start or end bound (falling back to
/// `fromDate` and `toDate`) that is no date is ignored.
pub open spec fn service_expense_filters(q: GetExpensesQuery, start: DateInput, end: DateInput) -> Seq<
    FilterView,
> {
    opt_filter(
        q.search is Some,
        seq![
            " AND (description ILIKE "@,
            " OR party_name ILIKE "@,
            " OR remarks ILIKE "@,
            " OR voucher_no ILIKE "@,
            ")"@,
        ],
        search_spec(q.search->0@, true),
    ) + opt_filter(
        chosen(q.category, "All Categories"@),
        seq![" AND category = "@, ""@],
        q.category->0@,
    ) + date_filter(start, seq![" AND date >= "@, ""@]) + date_filter(
        end,
        seq![" AND date <= "@, ""@],
    )
}

/// The finance service's expense listing query once its bounds are read.
pub fn service_expenses_query_with(q: &GetExpensesQuery, start: DateInput, end: DateInput) -> (r:
    SqlQuery)
    ensures
        r.sql@ == query_sql_spec(
            EXPENSES_SERVICE_SQL@,
            0,
            service_expense_filters(*q, start, end),
            " ORDER BY date DESC, created_at DESC"@,
            true,
        ),
        strings_view(r.binders@) == values_spec(service_expense_filters(*q, start, end)),
{
    let mut fs: Vec<Filter> = Vec::new();
    if let Some(s) = &q.search {
        push_filter(
            &mut fs,
            pieces5(
                " AND (description ILIKE ",
                " OR party_name ILIKE ",
                " OR remarks ILIKE ",
                " OR voucher_no ILIKE ",
                ")",
            ),
            search_term(s.as_str(), true),
        );
    }
    if is_chosen(&q.category, "All Categories") {
        let c = q.category.as_ref().unwrap().clone();
        push_filter(&mut fs, pieces2(" AND category = ", ""), c);
    }
    push_date_filter(&mut fs, &start, pieces2(" AND date >= ", ""));
    push_date_filter(&mut fs, &end, pieces2(" AND date <= ", ""));
    assert(filters_view(fs@) =~= service_expense_filters(*q, start, end));
    let r = build_query(
        EXPENSES_SERVICE_SQL,
        Vec::new(),
        fs,
        " ORDER BY date DESC, created_at DESC",
        true,
    );
    assert(strings_view(Seq::<String>::empty()) =~= Seq::<Seq<char>>::empty());
    assert(strings_view(r.binders@) =~= values_spec(service_expense_filters(*q, start, end)));
    r
}

/// The finance service's expense listing query: the lower bound is
/// `start_date`, else `fromDate`; the upper bound `end_date`, else
/// `toDate`; each read with chrono.
pub fn service_expenses_query(q: &GetExpensesQuery) -> (r: SqlQuery)
    ensures
        ({
            let start = date_input_spec(opt_view(first_given(q.start_date, q.from_date)), false);
            let end = date_input_spec(opt_view(first_given(q.end_date, q.to_date)), false);
            &&& r.sql@ == query_sql_spec(
                EXPENSES_SERVICE_SQL@,
                0,
                service_expense_filters(*q, start, end),
                " ORDER BY date DESC, created_at DESC"@,
                true,
            )
            &&& strings_view(r.binders@) == values_spec(service_expense_filters(*q, start, end))
        }),
{
    let start_field = if q.start_date.is_some() {
        q.start_date.clone()
    } else {
        q.from_date.clone()
    };
    let end_field = if q.end_date.is_some() {
        q.end_date.clone()
    } else {
        q.to_date.clone()
    };
    let start = read_date(&start_field, false);
    let end = read_date(&end_field, false);
    service_expenses_query_with(q, start, end)
}

} // verus!
