use vstd::prelude::*;
use crate::dates::{date_text, date_text_spec, DateInput};
use crate::query::{filter_view, filters_view, pieces_view, FilterView, Filter};
use crate::text::str_eq;

verus! {

/// Two condition pieces.
pub fn pieces2(a: &'static str, b: &'static str) -> (r: Vec<&'static str>)
    ensures
        pieces_view(r@) == seq![a@, b@],
{
    let r = vec![a, b];
    assert(pieces_view(r@) =~= seq![a@, b@]);
    r
}

/// Three condition pieces.
pub fn pieces3(a: &'static str, b: &'static str, c: &'static str) -> (r: Vec<&'static str>)
    ensures
        pieces_view(r@) == seq![a@, b@, c@],
{
    let r = vec![a, b, c];
    assert(pieces_view(r@) =~= seq![a@, b@, c@]);
    r
}

/// Four condition pieces.
pub fn pieces4(a: &'static str, b: &'static str, c: &'static str, d: &'static str) -> (r: Vec<
    &'static str,
>)
    ensures
        pieces_view(r@) == seq![a@, b@, c@, d@],
{
    let r = vec![a, b, c, d];
    assert(pieces_view(r@) =~= seq![a@, b@, c@, d@]);
    r
}

/// Five condition pieces.
pub fn pieces5(
    a: &'static str,
    b: &'static str,
    c: &'static str,
    d: &'static str,
    e: &'static str,
) -> (r: Vec<&'static str>)
    ensures
        pieces_view(r@) == seq![a@, b@, c@, d@, e@],
{
    let r = vec![a, b, c, d, e];
    assert(pieces_view(r@) =~= seq![a@, b@, c@, d@, e@]);
    r
}

/// Six condition pieces.
pub fn pieces6(
    a: &'static str,
    b: &'static str,
    c: &'static str,
    d: &'static str,
    e: &'static str,
    f: &'static str,
) -> (r: Vec<&'static str>)
    ensures
        pieces_view(r@) == seq![a@, b@, c@, d@, e@, f@],
{
    let r = vec![a, b, c, d, e, f];
    assert(pieces_view(r@) =~= seq![a@, b@, c@, d@, e@, f@]);
    r
}

/// Adds a filter at the end.
pub fn push_filter(fs: &mut Vec<Filter>, pieces: Vec<&'static str>, value: String)
    ensures
        filters_view(final(fs)@) == filters_view(old(fs)@).push((pieces_view(pieces@), value@)),
{
    let f = Filter { pieces, value };
    fs.push(f);
    assert(filters_view(fs@) =~= filters_view(old(fs)@).push((pieces_view(pieces@), value@)));
}

/// An optional text field that is given and differs from the "all"
/// choice of its drop-down.
pub open spec fn chosen(field: Option<String>, all: Seq<char>) -> bool {
    field is Some && field->0@ != all
}

/// Whether an optional text field is given and differs from `all`.
pub fn is_chosen(field: &Option<String>, all: &str) -> (r: bool)
    ensures
        r == chosen(*field, all@),
{
    match field {
        Some(v) => !str_eq(v.as_str(), all),
        None => false,
    }
}

/// The filter on a date field: present only when the field holds a valid
/// date, whose text it binds.
pub open spec fn date_filter(d: DateInput, pieces: Seq<Seq<char>>) -> Seq<FilterView> {
    match d {
        DateInput::Valid(c) => seq![
            (pieces, date_text_spec(c.year as int, c.month as nat, c.day as nat)),
        ],
        _ => Seq::empty(),
    }
}

/// Adds the filter on a date field when it holds a valid date.
pub fn push_date_filter(fs: &mut Vec<Filter>, d: &DateInput, pieces: Vec<&'static str>)
    ensures
        filters_view(final(fs)@) == filters_view(old(fs)@) + date_filter(*d, pieces_view(pieces@)),
{
    match d {
        DateInput::Valid(c) => {
            let t = date_text(c);
            push_filter(fs, pieces, t);
            assert(filters_view(fs@) =~= filters_view(old(fs)@) + date_filter(
                *d,
                pieces_view(pieces@),
            ));
        },
        _ => {
            assert(filters_view(fs@) =~= filters_view(old(fs)@) + date_filter(
                *d,
                pieces_view(pieces@),
            ));
        },
    }
}

} // verus!
