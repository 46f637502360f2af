use vstd::prelude::*;
use crate::text::{dec_spec, dec_u64, trim, trim_spec};

verus! {

/// One optional condition of a listing query: the text pieces that the
/// condition's parameter joins (`" AND x ILIKE "`, `" OR y ILIKE "`, ...)
/// and the value bound to that parameter.
#[derive(Debug)]
pub struct Filter {
    pub pieces: Vec<&'static str>,
    pub value: String,
}

/// A parameterised SQL text with the values of its numbered parameters
/// `$1, $2, ...` in order (page size and offset, when paged, are bound
/// after these by the caller).
#[derive(Debug)]
pub struct SqlQuery {
    pub sql: String,
    pub binders: Vec<String>,
}

/// The abstract form of a filter: its pieces and its value as texts.
pub type FilterView = (Seq<Seq<char>>, Seq<char>);

/// The texts of a sequence of string slices.
pub open spec fn pieces_view(p: Seq<&'static str>) -> Seq<Seq<char>> {
    p.map_values(|x: &'static str| x@)
}

/// The texts of a sequence of strings.
pub open spec fn strings_view(v: Seq<String>) -> Seq<Seq<char>> {
    v.map_values(|x: String| x@)
}

/// The abstract form of a filter.
pub open spec fn filter_view(f: Filter) -> FilterView {
    (pieces_view(f.pieces@), f.value@)
}

/// The abstract forms of a sequence of filters.
pub open spec fn filters_view(v: Seq<Filter>) -> Seq<FilterView> {
    v.map_values(|f: Filter| filter_view(f))
}

/// The pieces joined by a separator.
pub open spec fn join_spec(pieces: Seq<Seq<char>>, sep: Seq<char>) -> Seq<char>
    decreases pieces.len(),
{
    if pieces.len() == 0 {
        Seq::empty()
    } else if pieces.len() == 1 {
        pieces[0]
    } else {
        join_spec(pieces.subrange(0, pieces.len() - 1), sep) + sep + pieces[pieces.len() - 1]
    }
}

/// The SQL parameter with number `k` (`$k`).
pub open spec fn param_spec(k: nat) -> Seq<char> {
    seq!['$'] + dec_spec(k)
}

/// A filter's condition text when its parameter has number `k`.
pub open spec fn clause_spec(pieces: Seq<Seq<char>>, k: nat) -> Seq<char> {
    join_spec(pieces, param_spec(k))
}

/// The condition texts of the filters, the `i`-th using parameter
/// `first + i`.
pub open spec fn clauses_spec(filters: Seq<FilterView>, first: nat) -> Seq<char>
    decreases filters.len(),
{
    if filters.len() == 0 {
        Seq::empty()
    } else {
        clauses_spec(filters.subrange(0, filters.len() - 1), first) + clause_spec(
            filters[filters.len() - 1].0,
            (first + filters.len() - 1) as nat,
        )
    }
}

/// The bound values of the filters, in order.
pub open spec fn values_spec(filters: Seq<FilterView>) -> Seq<Seq<char>> {
    filters.map_values(|f: FilterView| f.1)
}

/// The page clause whose size parameter has number `k` and whose offset
/// parameter has number `k + 1`.
pub open spec fn limit_spec(k: nat) -> Seq<char> {
    " LIMIT "@ + param_spec(k) + " OFFSET "@ + param_spec(k + 1)
}

/// The SQL text of a listing: the base text, the filter conditions
/// numbered after the values already bound, the ordering, and when paged
/// the page clause numbered after all filter values.
pub open spec fn query_sql_spec(
    base: Seq<char>,
    initial: nat,
    filters: Seq<FilterView>,
    order: Seq<char>,
    paged: bool,
) -> Seq<char> {
    base + clauses_spec(filters, initial + 1) + order + (if paged {
        limit_spec(initial + filters.len() + 1)
    } else {
        Seq::empty()
    })
}

/// A filter that applies only when `cond` holds.
pub open spec fn opt_filter(cond: bool, pieces: Seq<Seq<char>>, value: Seq<char>) -> Seq<
    FilterView,
> {
    if cond {
        seq![(pieces, value)]
    } else {
        Seq::empty()
    }
}

/// The pattern that matches texts containing `s` (`%s%`).
pub open spec fn like_spec(s: Seq<char>) -> Seq<char> {
    seq!['%'] + s + seq!['%']
}

/// The pattern for a search text, trimmed first where `trimmed` holds.
pub open spec fn search_spec(s: Seq<char>, trimmed: bool) -> Seq<char> {
    if trimmed {
        like_spec(trim_spec(s))
    } else {
        like_spec(s)
    }
}

/// The `%s%` pattern of a search text.
pub fn search_term(s: &str, trimmed: bool) -> (r: String)
    ensures
        r@ == search_spec(s@, trimmed),
{
    let body = if trimmed {
        trim(s)
    } else {
        s
    };
    let mut r = String::from_str("%");
    r.append(body);
    r.append("%");
    proof {
        reveal_strlit("%");
    }
    r
}

/// The SQL parameter `$k`.
pub fn param_text(k: u64) -> (r: String)
    ensures
        r@ == param_spec(k as nat),
{
    let mut r = String::from_str("$");
    proof {
        reveal_strlit("$");
    }
    let d = dec_u64(k);
    r.append(d.as_str());
    r
}

/// Renders one filter condition with parameter number `k`.
pub fn render_clause(pieces: &Vec<&'static str>, k: u64) -> (r: String)
    ensures
        r@ == clause_spec(pieces_view(pieces@), k as nat),
{
    let ghost pv = pieces_view(pieces@);
    let mut r = String::new();
    if pieces.len() == 0 {
        return r;
    }
    let p = param_text(k);
    r.append(pieces[0]);
    assert(pv.subrange(0, 1) =~= seq![pv[0]]);
    let mut i: usize = 1;
    while i < pieces.len()
        invariant
            1 <= i <= pieces.len(),
            pv == pieces_view(pieces@),
            p@ == param_spec(k as nat),
            r@ == join_spec(pv.subrange(0, i as int), p@),
        decreases pieces.len() - i,
    {
        r.append(p.as_str());
        r.append(pieces[i]);
        proof {
            let t = pv.subrange(0, i + 1);
            assert(t.subrange(0, t.len() - 1) =~= pv.subrange(0, i as int));
        }
        i = i + 1;
    }
    assert(pv.subrange(0, pieces.len() as int) =~= pv);
    r
}

/// Assembles a listing query: `base`, whose text already refers to the
/// `initial` values; the conditions of `filters`, numbered after them; the
/// ordering text; and, when `paged`, the page clause numbered after all
/// bound values. The result binds the initial values and then the filter
/// values, in order.
pub fn build_query(
    base: &str,
    initial: Vec<String>,
    filters: Vec<Filter>,
    order: &str,
    paged: bool,
) -> (q: SqlQuery)
    requires
        initial.len() + filters.len() + 2 < usize::MAX,
    ensures
        q.sql@ == query_sql_spec(
            base@,
            initial.len() as nat,
            filters_view(filters@),
            order@,
            paged,
        ),
        strings_view(q.binders@) == strings_view(initial@) + values_spec(filters_view(filters@)),
        q.binders.len() == initial.len() + filters.len(),
{
    let ghost fv = filters_view(filters@);
    let ghost first = (initial.len() + 1) as nat;
    let mut sql = String::from_str(base);
    let mut binders = initial;
    let ghost init_view = strings_view(binders@);
    let n0 = binders.len();
    let mut i: usize = 0;
    assert(fv.subrange(0, 0) =~= Seq::<FilterView>::empty());
    assert(values_spec(fv.subrange(0, 0)) =~= Seq::<Seq<char>>::empty());
    assert(strings_view(binders@) =~= init_view + values_spec(fv.subrange(0, 0)));
    while i < filters.len()
        invariant
            i <= filters.len(),
            n0 + filters.len() + 2 < usize::MAX,
            first == n0 + 1,
            fv == filters_view(filters@),
            sql@ == base@ + clauses_spec(fv.subrange(0, i as int), first),
            binders.len() == n0 + i,
            strings_view(binders@) == init_view + values_spec(fv.subrange(0, i as int)),
        decreases filters.len() - i,
    {
        let c = render_clause(&filters[i].pieces, (n0 + i + 1) as u64);
        sql.append(c.as_str());
        let ghost old_b = binders@;
        let v = filters[i].value.clone();
        binders.push(v);
        proof {
            assert(strings_view(binders@) =~= strings_view(old_b).push(v@));
            let t = fv.subrange(0, i + 1);
            assert(t.subrange(0, t.len() - 1) =~= fv.subrange(0, i as int));
            assert(t[t.len() - 1] == fv[i as int]);
            assert(fv[i as int] == filter_view(filters@[i as int]));
            assert(values_spec(t) =~= values_spec(fv.subrange(0, i as int)).push(
                filters@[i as int].value@,
            ));
            assert(strings_view(binders@) =~= init_view + values_spec(t));
        }
        i = i + 1;
    }
    assert(fv.subrange(0, filters.len() as int) =~= fv);
    sql.append(order);
    if paged {
        let k = (n0 + filters.len() + 1) as u64;
        sql.append(" LIMIT ");
        let a = param_text(k);
        sql.append(a.as_str());
        sql.append(" OFFSET ");
        let b = param_text(k + 1);
        sql.append(b.as_str());
    }
    SqlQuery { sql, binders }
}

/// A query's filters are numbered in the order of their values: the
/// condition of the `i`-th filter uses parameter `initial + 1 + i`, which is
/// the position of the filter's value among the bound values, and the page
/// clause uses the two numbers after the last bound value.
pub proof fn law_parameters_follow_values(filters: Seq<FilterView>, first: nat, i: int)
    requires
        0 <= i < filters.len(),
    ensures
        clauses_spec(filters, first) == clauses_spec(filters.subrange(0, i), first) + clause_spec(
            filters[i].0,
            (first + i) as nat,
        ) + clauses_spec(filters.subrange(i + 1, filters.len() as int), (first + i + 1) as nat),
        values_spec(filters)[i] == filters[i].1,
    decreases filters.len(),
{
    let n = filters.len() as int;
    if i == n - 1 {
        assert(filters.subrange(i + 1, n) =~= Seq::<FilterView>::empty());
        assert(filters.subrange(0, i) =~= filters.subrange(0, n - 1));
    } else {
        let p = filters.subrange(0, n - 1);
        law_parameters_follow_values(p, first, i);
        assert(p.subrange(0, i) =~= filters.subrange(0, i));
        let tail = filters.subrange(i + 1, n);
        let ptail = p.subrange(i + 1, p.len() as int);
        assert(tail.subrange(0, tail.len() - 1) =~= ptail);
        assert(tail[tail.len() - 1] == filters[n - 1]);
        assert(first + i + 1 + tail.len() - 1 == first + n - 1);
        assert(clauses_spec(tail, (first + i + 1) as nat) == clauses_spec(
            ptail,
            (first + i + 1) as nat,
        ) + clause_spec(filters[n - 1].0, (first + n - 1) as nat));
    }
}

} // verus!
