use vstd::prelude::*;
use crate::errors::{bad_request, conflict, not_found, AppError};
use crate::fees::{meets, ErrorKindTag};
use crate::filters::{pieces2, pieces4, push_filter};
use crate::hostel::{text_or, text_or_default};
use crate::query::{
    build_query, filters_view, opt_filter, query_sql_spec, search_spec, search_term,
    strings_view, values_spec, Filter, FilterView, SqlQuery,
};
use crate::sms::opt_view;
use crate::sql_text::ITEMS_SQL;
use crate::text::{dec_i64, dec_int_spec, is_blank, lemma_trim_idempotent, str_eq, trim, trim_spec};

verus! {

/// A new inventory category.
#[derive(Debug)]
pub struct CreateCategoryPayload {
    pub name: String,
    pub description: Option<String>,
}

/// A change of an inventory category.
#[derive(Debug)]
pub struct UpdateCategoryPayload {
    pub name: Option<String>,
    pub description: Option<String>,
}

/// Query parameters of the inventory item listing (the category id in its
/// text form).
#[derive(Debug)]
pub struct GetItemsQuery {
    pub search: Option<String>,
    pub category_id: Option<String>,
    pub page: Option<i64>,
    pub limit: Option<i64>,
}

/// The filters of the inventory item listing.
pub open spec fn item_filters(q: GetItemsQuery) -> Seq<FilterView> {
    opt_filter(
        q.search is Some,
        seq![" AND (i.name ILIKE "@, " OR c.name ILIKE "@, " OR i.description ILIKE "@, ")"@],
        search_spec(q.search->0@, true),
    ) + opt_filter(
        q.category_id is Some,
        seq![" AND i.category_id = "@, ""@],
        q.category_id->0@,
    )
}

/// The inventory item listing query (paged).
pub fn items_query(q: &GetItemsQuery) -> (r: SqlQuery)
    ensures
        r.sql@ == query_sql_spec(ITEMS_SQL@, 0, item_filters(*q), " ORDER BY i.name ASC"@, true),
        strings_view(r.binders@) == values_spec(item_filters(*q)),
{
    let mut fs: Vec<Filter> = Vec::new();
    if let Some(s) = &q.search {
        push_filter(
            &mut fs,
            pieces4(" AND (i.name ILIKE ", " OR c.name ILIKE ", " OR i.description ILIKE ", ")"),
            search_term(s.as_str(), true),
        );
    }
    if let Some(c) = &q.category_id {
        push_filter(&mut fs, pieces2(" AND i.category_id = ", ""), c.clone());
    }
    assert(filters_view(fs@) =~= item_filters(*q));
    let r = build_query(ITEMS_SQL, Vec::new(), fs, " ORDER BY i.name ASC", true);
    assert(strings_view(Seq::<String>::empty()) =~= Seq::<Seq<char>>::empty());
    assert(strings_view(r.binders@) =~= values_spec(item_filters(*q)));
    r
}

/// First check of a new category: its trimmed name, which must not be
/// empty.
pub fn category_name(p: &CreateCategoryPayload) -> (r: Result<String, AppError>)
    ensures
        trim_spec(p.name@).len() == 0 ==> (r matches Err(e) && e.is_bad_request(
            "Category name is required"@,
        )),
        trim_spec(p.name@).len() != 0 ==> (r matches Ok(n) && n@ == trim_spec(p.name@)),
{
    if is_blank(p.name.as_str()) {
        return Err(bad_request("Category name is required"));
    }
    Ok(String::from_str(trim(p.name.as_str())))
}

/// A category whose name is already taken cannot be created.
pub fn category_name_free(taken: bool) -> (r: Result<(), AppError>)
    ensures
        taken ==> (r matches Err(e) && e.is_conflict("Category with this name already exists"@)),
        !taken ==> r is Ok,
{
    if taken {
        Err(conflict("Category with this name already exists"))
    } else {
        Ok(())
    }
}

/// The name of an updated category: the given name (empty when none is
/// given), trimmed, which must not be empty.
pub fn renamed_category(p: &UpdateCategoryPayload) -> (r: Result<String, AppError>)
    ensures
        ({
            let n = match p.name {
                Some(t) => t@,
                None => Seq::<char>::empty(),
            };
            &&& trim_spec(n).len() == 0 ==> (r matches Err(e) && e.is_bad_request(
                "Category name cannot be empty"@,
            ))
            &&& trim_spec(n).len() != 0 ==> (r matches Ok(x) && x@ == trim_spec(n))
        }),
{
    let name = match &p.name {
        Some(t) => t.clone(),
        None => String::new(),
    };
    if is_blank(name.as_str()) {
        return Err(bad_request("Category name cannot be empty"));
    }
    Ok(String::from_str(trim(name.as_str())))
}

/// The integer and text fields of a new inventory item.
#[derive(Debug)]
pub struct ItemDraft {
    pub name: String,
    pub required_qty: Option<i32>,
    pub available_qty: Option<i32>,
    pub low_stock_threshold: Option<i32>,
    pub unit: Option<String>,
    pub description: Option<String>,
}

/// The stored integer and text fields of an inventory item.
#[derive(Debug)]
pub struct ItemRecord {
    pub name: String,
    pub required_qty: i32,
    pub available_qty: i32,
    pub low_stock_threshold: i32,
    pub unit: String,
    pub description: Option<String>,
}

/// An optional number or its default.
pub open spec fn num_or(n: Option<i32>, default: i32) -> i32 {
    match n {
        Some(x) => x,
        None => default,
    }
}

/// Checks and completes a new item: the name is required and trimmed;
/// quantities default to 0 and the available quantity may not be
/// negative; the low-stock threshold defaults to 5 and the unit to `pcs`.
pub fn new_item(d: &ItemDraft) -> (r: Result<ItemRecord, AppError>)
    ensures
        trim_spec(d.name@).len() == 0 ==> (r matches Err(e) && e.is_bad_request(
            "Item name is required"@,
        )),
        trim_spec(d.name@).len() != 0 && num_or(d.available_qty, 0) < 0 ==> (r matches Err(e)
            && e.is_bad_request("Available quantity cannot be negative"@)),
        trim_spec(d.name@).len() != 0 && num_or(d.available_qty, 0) >= 0 ==> (r matches Ok(x) && {
            &&& x.name@ == trim_spec(d.name@)
            &&& x.required_qty == num_or(d.required_qty, 0)
            &&& x.available_qty == num_or(d.available_qty, 0)
            &&& x.low_stock_threshold == num_or(d.low_stock_threshold, 5)
            &&& x.unit@ == text_or(d.unit, "pcs"@)
            &&& opt_view(x.description) == opt_view(d.description)
        }),
{
    if is_blank(d.name.as_str()) {
        return Err(bad_request("Item name is required"));
    }
    let required_qty = match d.required_qty {
        Some(x) => x,
        None => 0,
    };
    let available_qty = match d.available_qty {
        Some(x) => x,
        None => 0,
    };
    if available_qty < 0 {
        return Err(bad_request("Available quantity cannot be negative"));
    }
    Ok(ItemRecord {
        name: String::from_str(trim(d.name.as_str())),
        required_qty,
        available_qty,
        low_stock_threshold: match d.low_stock_threshold {
            Some(x) => x,
            None => 5,
        },
        unit: text_or_default(&d.unit, "pcs"),
        description: d.description.clone(),
    })
}

/// A partial change of an item.
#[derive(Debug)]
pub struct ItemUpdate {
    pub name: Option<String>,
    pub required_qty: Option<i32>,
    pub available_qty: Option<i32>,
    pub low_stock_threshold: Option<i32>,
    pub unit: Option<String>,
    pub description: Option<String>,
}

/// An item after an update: each given field replaces the stored one (the
/// name trimmed), the others stay.
pub open spec fn item_after_update(old: ItemRecord, u: ItemUpdate) -> (Seq<char>, i32, i32, i32, Seq<
    char,
>, Option<Seq<char>>) {
    (
        trim_spec(
            match u.name {
                Some(t) => t@,
                None => old.name@,
            },
        ),
        num_or(u.required_qty, old.required_qty),
        num_or(u.available_qty, old.available_qty),
        num_or(u.low_stock_threshold, old.low_stock_threshold),
        match u.unit {
            Some(t) => t@,
            None => old.unit@,
        },
        match u.description {
            Some(t) => Some(t@),
            None => opt_view(old.description),
        },
    )
}

/// The view of an item's fields.
pub open spec fn item_fields(x: ItemRecord) -> (Seq<char>, i32, i32, i32, Seq<char>, Option<
    Seq<char>,
>) {
    (x.name@, x.required_qty, x.available_qty, x.low_stock_threshold, x.unit@, opt_view(
        x.description,
    ))
}

/// Repeating an item update changes nothing more: the name, trimmed once,
/// stays as it is when trimmed again.
pub proof fn law_item_update_idempotent(old: ItemRecord, u: ItemUpdate, x: ItemRecord, y: ItemRecord)
    requires
        item_fields(x) == item_after_update(old, u),
        item_fields(y) == item_after_update(x, u),
    ensures
        item_fields(y) == item_fields(x),
{
    match u.name {
        Some(_) => {},
        None => lemma_trim_idempotent(old.name@),
    }
}

/// Each field that an item update gives replaces the stored one (the name
/// trimmed), and each it leaves out stays as stored: a new low-stock
/// threshold is the one that low-stock alerts then use.
pub proof fn law_item_update_replaces_given(old: ItemRecord, u: ItemUpdate, x: ItemRecord)
    requires
        item_fields(x) == item_after_update(old, u),
    ensures
        u.name matches Some(t) ==> x.name@ == trim_spec(t@),
        u.name is None ==> x.name@ == trim_spec(old.name@),
        u.required_qty matches Some(n) ==> x.required_qty == n,
        u.required_qty is None ==> x.required_qty == old.required_qty,
        u.available_qty matches Some(n) ==> x.available_qty == n,
        u.available_qty is None ==> x.available_qty == old.available_qty,
        u.low_stock_threshold matches Some(n) ==> x.low_stock_threshold == n,
        u.low_stock_threshold is None ==> x.low_stock_threshold == old.low_stock_threshold,
        u.unit matches Some(t) ==> x.unit@ == t@,
        u.unit is None ==> x.unit@ == old.unit@,
        u.description matches Some(t) ==> opt_view(x.description) == Some(t@),
        u.description is None ==> opt_view(x.description) == opt_view(old.description),
{
}

/// Applies a partial update to an item.
pub fn update_item_record(old: ItemRecord, u: ItemUpdate) -> (r: ItemRecord)
    ensures
        item_fields(r) == item_after_update(old, u),
{
    let name = match u.name {
        Some(t) => t,
        None => old.name,
    };
    ItemRecord {
        name: String::from_str(trim(name.as_str())),
        required_qty: match u.required_qty {
            Some(x) => x,
            None => old.required_qty,
        },
        available_qty: match u.available_qty {
            Some(x) => x,
            None => old.available_qty,
        },
        low_stock_threshold: match u.low_stock_threshold {
            Some(x) => x,
            None => old.low_stock_threshold,
        },
        unit: match u.unit {
            Some(t) => t,
            None => old.unit,
        },
        description: match u.description {
            Some(t) => Some(t),
            None => old.description,
        },
    }
}

/// The message when a request asks for more than is in stock.
pub open spec fn insufficient_message(available: i32, unit: Seq<char>) -> Seq<char> {
    "Insufficient stock. Only "@ + dec_int_spec(available as int) + " "@ + unit + " available."@
}

/// What an issue request needs to know of an item.
#[derive(Debug)]
pub struct StockInfo {
    pub available: i32,
    pub unit: String,
}

/// Checks an issue request against the item's stock: the quantity must
/// be positive, the item must exist, and it must have at least that many
/// available.
pub fn check_issue(qty: i32, item: Option<StockInfo>) -> (r: Result<(), AppError>)
    ensures
        qty <= 0 ==> (r matches Err(e) && e.is_bad_request("Quantity must be greater than zero"@)),
        qty > 0 && item is None ==> (r matches Err(e) && e.is_not_found("Item not found"@)),
        qty > 0 && (item matches Some(it) && it.available < qty) ==> (r matches Err(e)
            && e.is_bad_request(insufficient_message(item->0.available, item->0.unit@))),
        qty > 0 && (item matches Some(it) && it.available >= qty) ==> r is Ok,
        meets(r, issue_rule(qty, match item {
            Some(it) => Some((it.available, it.unit@)),
            None => None,
        })),
{
    if qty <= 0 {
        return Err(bad_request("Quantity must be greater than zero"));
    }
    match item {
        None => Err(not_found("Item not found")),
        Some(info) => {
            let available = info.available;
            let unit = info.unit;
            if available < qty {
                let mut m = String::from_str("Insufficient stock. Only ");
                let n = dec_i64(available as i64);
                m.append(n.as_str());
                m.append(" ");
                m.append(unit.as_str());
                m.append(" available.");
                Err(AppError::BadRequest(m))
            } else {
                Ok(())
            }
        },
    }
}

/// Checks a return: the issue must exist and not be returned already. The
/// issue is its status, when found.
pub fn check_return(issue_status: Option<String>) -> (r: Result<(), AppError>)
    ensures
        issue_status is None ==> (r matches Err(e) && e.is_not_found("Issue record not found"@)),
        (issue_status matches Some(s) && s@ == "returned"@) ==> (r matches Err(e)
            && e.is_bad_request("Item already returned"@)),
        (issue_status matches Some(s) && s@ != "returned"@) ==> r is Ok,
{
    match issue_status {
        None => Err(not_found("Issue record not found")),
        Some(s) => {
            if str_eq(s.as_str(), "returned") {
                Err(bad_request("Item already returned"))
            } else {
                Ok(())
            }
        },
    }
}

/// The stored stock after a change by `delta`, or `None` when the result
/// leaves the range of the integer column (the store refuses the change).
pub open spec fn stock_after_spec(available: int, delta: int) -> Option<int> {
    if i32::MIN <= available + delta <= i32::MAX {
        Some(available + delta)
    } else {
        None
    }
}

/// The stock after an issue (`delta = -qty`) or a return (`delta = qty`).
pub fn stock_after(available: i32, delta: i32) -> (r: Option<i32>)
    ensures
        match r {
            Some(v) => stock_after_spec(available as int, delta as int) == Some(v as int),
            None => stock_after_spec(available as int, delta as int) is None,
        },
{
    let s: i64 = available as i64 + delta as i64;
    if s < i32::MIN as i64 || s > i32::MAX as i64 {
        None
    } else {
        Some(s as i32)
    }
}

/// Returning what was issued restores the stock: an issue that passes its
/// check never drives the stock below zero, and the return of the same
/// quantity brings the available quantity back to what it was.
pub proof fn law_return_undoes_issue(available: i32, qty: i32)
    requires
        0 < qty <= available,
    ensures
        stock_after_spec(available as int, -qty) matches Some(after) && after >= 0
            && stock_after_spec(after, qty as int) == Some(available as int),
{
}

/// What the stock store holds: the available quantity of each item, and
/// each issue as its item, its quantity and whether it was returned.
pub struct StockState {
    pub available: Map<int, i32>,
    pub issues: Map<int, (int, i32, bool)>,
}

/// The rule of an issue request as a value: the quantity must be
/// positive, the item must exist, and it must have that many available.
pub open spec fn issue_rule(qty: i32, item: Option<(i32, Seq<char>)>) -> Result<(), (ErrorKindTag, Seq<char>)> {
    if qty <= 0 {
        Err((ErrorKindTag::BadRequest, "Quantity must be greater than zero"@))
    } else {
        match item {
            None => Err((ErrorKindTag::NotFound, "Item not found"@)),
            Some((available, unit)) => if available < qty {
                Err((ErrorKindTag::BadRequest, insufficient_message(available, unit)))
            } else {
                Ok(())
            },
        }
    }
}

/// An issue of `qty` of `item`, recorded as issue `id` (a fresh one), on a
/// stored state: refused as `issue_rule` says (the unit only words the
/// message), else the stock drops by `qty` and the issue is recorded as out.
pub open spec fn stock_issue_step(s: StockState, item: int, qty: i32, unit: Seq<char>, id: int) -> Result<
    StockState,
    (ErrorKindTag, Seq<char>),
> {
    let found = if s.available.dom().contains(item) {
        Some((s.available[item], unit))
    } else {
        None
    };
    match issue_rule(qty, found) {
        Err(e) => Err(e),
        Ok(_) => Ok(
            StockState {
                available: s.available.insert(item, (s.available[item] - qty) as i32),
                issues: s.issues.insert(id, (item, qty, false)),
            },
        ),
    }
}

/// The return of issue `id` on a stored state: refused as `check_return`
/// says when the issue is missing or already returned, else its quantity
/// goes back to its item's stock and the issue is marked returned.
pub open spec fn stock_return_step(s: StockState, id: int) -> Result<StockState, (ErrorKindTag, Seq<char>)> {
    if !s.issues.dom().contains(id) {
        Err((ErrorKindTag::NotFound, "Issue record not found"@))
    } else if s.issues[id].2 {
        Err((ErrorKindTag::BadRequest, "Item already returned"@))
    } else {
        let (item, qty, _) = s.issues[id];
        Ok(
            StockState {
                available: s.available.insert(item, (s.available[item] + qty) as i32),
                issues: s.issues.insert(id, (item, qty, true)),
            },
        )
    }
}

/// Issuing an item and then returning that issue, with no other write in
/// between, leaves the item's stock where it was: the issue never takes it
/// below zero, the return restores it and leaves every other item alone,
/// and a second return of the same issue is refused with the state
/// unchanged.
pub proof fn law_issue_then_return_restores_stock(s: StockState, item: int, qty: i32, unit: Seq<char>, id: int)
    requires
        !s.issues.dom().contains(id),
        stock_issue_step(s, item, qty, unit, id) is Ok,
    ensures
        ({
            let s1 = stock_issue_step(s, item, qty, unit, id)->Ok_0;
            &&& s1.available[item] >= 0
            &&& s1.available[item] == s.available[item] - qty
            &&& stock_return_step(s1, id) matches Ok(s2) && s2.available =~= s.available && s2.issues[id] == (
                item,
                qty,
                true,
            ) && stock_return_step(s2, id) == Err::<StockState, (ErrorKindTag, Seq<char>)>(
                (ErrorKindTag::BadRequest, "Item already returned"@),
            )
        }),
{
    let s1 = stock_issue_step(s, item, qty, unit, id)->Ok_0;
    assert(s.available.dom().contains(item));
    assert(s1.issues[id] == (item, qty, false));
    let s2 = stock_return_step(s1, id)->Ok_0;
    assert(s2.available =~= s.available.insert(item, s.available[item]));
    assert(s.available.insert(item, s.available[item]) =~= s.available);
}

/// How an imported item row finds its category.
#[derive(Debug)]
pub enum CategorySource {
    /// The row names the category id (in its text form).
    Id(String),
    /// The row names the category; look it up by name, or create it.
    Name(String),
}

/// The message for an imported item without a category.
pub open spec fn category_required_message(item: Seq<char>) -> Seq<char> {
    "Category is required for item '"@ + item + "'"@
}

/// The category of an imported item row: its id when given, else its name;
/// a row with neither is refused.
pub fn import_category(
    category_id: &Option<String>,
    category_name: &Option<String>,
    item_name: &str,
) -> (r: Result<CategorySource, AppError>)
    ensures
        (category_id matches Some(i)) ==> (r matches Ok(CategorySource::Id(x)) && x@
            == category_id->0@),
        category_id is None && (category_name matches Some(n)) ==> (r matches Ok(
            CategorySource::Name(x),
        ) && x@ == category_name->0@),
        category_id is None && category_name is None ==> (r matches Err(e) && e.is_bad_request(
            category_required_message(item_name@),
        )),
{
    match category_id {
        Some(i) => Ok(CategorySource::Id(i.clone())),
        None => match category_name {
            Some(n) => Ok(CategorySource::Name(n.clone())),
            None => {
                let mut m = String::from_str("Category is required for item '");
                m.append(item_name);
                m.append("'");
                Err(AppError::BadRequest(m))
            },
        },
    }
}

/// An imported item row's integer and text fields.
#[derive(Debug)]
pub struct ImportItemFields {
    pub name: String,
    pub required_qty: Option<i32>,
    pub available_qty: Option<i32>,
    pub unit: Option<String>,
    pub description: Option<String>,
}

/// Whether an import row added a new item or changed an existing one.
#[derive(Debug)]
pub enum ChangeStatus {
    New,
    Modified,
}

/// The item an import row leaves: an existing item of the same name takes
/// the row's given fields and keeps the rest (its low-stock threshold
/// always); a new item takes the row's fields with defaults 0, 0, `pcs`
/// and threshold 5. The name is trimmed in both cases.
pub fn imported_item(row: &ImportItemFields, existing: Option<ItemRecord>) -> (r: (
    ItemRecord,
    ChangeStatus,
))
    ensures
        match existing {
            Some(old) => r.1 is Modified && r.0.name@ == trim_spec(row.name@) && r.0.required_qty
                == num_or(row.required_qty, old.required_qty) && r.0.available_qty == num_or(
                row.available_qty,
                old.available_qty,
            ) && r.0.low_stock_threshold == old.low_stock_threshold && r.0.unit@ == text_or(
                row.unit,
                old.unit@,
            ) && opt_view(r.0.description) == (match row.description {
                Some(t) => Some(t@),
                None => opt_view(old.description),
            }),
            None => r.1 is New && r.0.name@ == trim_spec(row.name@) && r.0.required_qty == num_or(
                row.required_qty,
                0,
            ) && r.0.available_qty == num_or(row.available_qty, 0) && r.0.low_stock_threshold == 5
                && r.0.unit@ == text_or(row.unit, "pcs"@) && opt_view(r.0.description) == opt_view(
                row.description,
            ),
        },
{
    let name = String::from_str(trim(row.name.as_str()));
    match existing {
        Some(old) => {
            let rec = ItemRecord {
                name,
                required_qty: match row.required_qty {
                    Some(x) => x,
                    None => old.required_qty,
                },
                available_qty: match row.available_qty {
                    Some(x) => x,
                    None => old.available_qty,
                },
                low_stock_threshold: old.low_stock_threshold,
                unit: match &row.unit {
                    Some(t) => t.clone(),
                    None => old.unit,
                },
                description: match &row.description {
                    Some(t) => Some(t.clone()),
                    None => old.description,
                },
            };
            (rec, ChangeStatus::Modified)
        },
        None => {
            let rec = ItemRecord {
                name,
                required_qty: match row.required_qty {
                    Some(x) => x,
                    None => 0,
                },
                available_qty: match row.available_qty {
                    Some(x) => x,
                    None => 0,
                },
                low_stock_threshold: 5,
                unit: text_or_default(&row.unit, "pcs"),
                description: row.description.clone(),
            };
            (rec, ChangeStatus::New)
        },
    }
}

/// The message for an imported issue of an unknown item.
pub open spec fn unknown_item_message(item: Seq<char>) -> Seq<char> {
    "Item '"@ + item + "' not found in inventory. Please add it first."@
}

/// An imported issue row needs its item to exist; its quantity defaults
/// to 1.
pub fn imported_issue_qty(item_name: &str, item_found: bool, qty: Option<i32>) -> (r: Result<
    i32,
    AppError,
>)
    ensures
        !item_found ==> (r matches Err(e) && e.is_bad_request(unknown_item_message(item_name@))),
        item_found ==> r == Ok::<i32, AppError>(num_or(qty, 1)),
{
    if !item_found {
        let mut m = String::from_str("Item '");
        m.append(item_name);
        m.append("' not found in inventory. Please add it first.");
        return Err(AppError::BadRequest(m));
    }
    Ok(
        match qty {
            Some(q) => q,
            None => 1,
        },
    )
}

} // verus!
