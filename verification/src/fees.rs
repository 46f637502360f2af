use vstd::prelude::*;
use crate::dates::{ymd_parse, parse_ymd, CalDate};
use crate::errors::{bad_request, conflict, not_found, AppError};
use crate::sms::opt_view;
use crate::hostel::{text_or, text_or_default};
use crate::transport::or_old;
use crate::ids::{is_uuid, uuid_parses};
use crate::library::fine_settlement;
use crate::text::{
    all_ws, contains, contains_spec, dec_i64, lemma_dec_int_injective, lemma_trim_empty_iff_all_ws, dec_int_spec, dec_spec, dec_u64, is_blank, lowercase_of,
    starts_with, starts_with_spec, str_eq, to_lower, to_upper, trim, trim_spec, uppercase_of,
};

verus! {

/// Where a money amount lies with respect to zero. Amounts are decimal
/// numbers that this library does not hold; the rules below only ever
/// compare them with zero.
#[derive(Debug)]
pub enum AmountSign {
    Negative,
    Zero,
    Positive,
    /// Not a number: every comparison with zero is false.
    NotANumber,
}

/// `amount < 0`.
pub open spec fn below_zero(a: AmountSign) -> bool {
    a is Negative
}

/// `amount <= 0`.
pub open spec fn at_most_zero(a: AmountSign) -> bool {
    a is Negative || a is Zero
}

/// Length of a text in UTF-8 bytes (`str::len`).
pub open spec fn byte_len(s: Seq<char>) -> nat {
    vstd::utf8::encode_utf8(s).len()
}

/// A fee collection request.
#[derive(Debug)]
pub struct AddFeeRecordPayload {
    pub student_id: String,
    pub student_name: Option<String>,
    pub class_name: Option<String>,
    pub course_name: Option<String>,
    pub room: Option<String>,
    pub bus_route: Option<String>,
    pub bus_no: Option<String>,
    pub receipt_book_no: Option<String>,
    pub receipt_no: String,
    pub receipt_date: String,
    pub payment_date: String,
    pub amount: AmountSign,
    pub utr_no: Option<String>,
    pub payment_mode: Option<String>,
    pub due_fees: Option<AmountSign>,
    pub remarks: Option<String>,
    pub discount: Option<AmountSign>,
    pub duration: Option<i32>,
    pub start_date: Option<String>,
    pub end_date: Option<String>,
}

/// A partial change of a fee record.
#[derive(Debug)]
pub struct UpdateFeeRecordPayload {
    /// The record's id (a UUID), where the route does not carry it.
    pub id: Option<String>,
    pub student_id: Option<String>,
    pub student_name: Option<String>,
    pub class_name: Option<String>,
    pub course_name: Option<String>,
    pub fee_type: Option<String>,
    pub room: Option<String>,
    pub bus_route: Option<String>,
    pub bus_no: Option<String>,
    pub receipt_book_no: Option<String>,
    pub receipt_no: Option<String>,
    pub receipt_date: Option<String>,
    pub payment_date: Option<String>,
    pub amount: Option<AmountSign>,
    pub utr_no: Option<String>,
    pub payment_mode: Option<String>,
    pub due_fees: Option<AmountSign>,
    pub remarks: Option<String>,
    pub discount: Option<AmountSign>,
    pub duration: Option<i32>,
    pub start_date: Option<String>,
    pub end_date: Option<String>,
}

/// A general expense request.
#[derive(Debug)]
pub struct AddExpensePayload {
    pub description: String,
    pub amount: AmountSign,
    pub category: Option<String>,
    pub date: Option<String>,
    pub payment_mode: Option<String>,
    pub remarks: Option<String>,
    pub utr: Option<String>,
    pub receipt: Option<String>,
    pub party_name: Option<String>,
    pub spent_by: Option<String>,
    pub voucher_no: Option<String>,
}

/// A partial change of a general expense.
#[derive(Debug)]
pub struct UpdateExpensePayload {
    pub description: Option<String>,
    pub amount: Option<AmountSign>,
    pub category: Option<String>,
    pub date: Option<String>,
    pub payment_mode: Option<String>,
    pub remarks: Option<String>,
    pub utr: Option<String>,
    pub receipt: Option<String>,
    pub party_name: Option<String>,
    pub spent_by: Option<String>,
    pub voucher_no: Option<String>,
}

/// A required identifier: not blank and at most `max` bytes long.
pub open spec fn bounded_text(s: Seq<char>, max: nat) -> bool {
    trim_spec(s).len() != 0 && byte_len(s) <= max
}

/// The payment modes of a fee.
pub open spec fn fee_mode_ok(m: Seq<char>) -> bool {
    m == "Online"@ || m == "Cash"@ || m == "Bank"@ || m == "Cheque"@ || m == "Waived"@ || m
        == "UPI"@ || m == "Card"@
}

/// The payment modes of an expense.
pub open spec fn expense_mode_ok(m: Seq<char>) -> bool {
    m == "Online"@ || m == "Cash"@ || m == "Bank"@ || m == "Cheque"@
}

/// The fee types.
pub open spec fn fee_type_ok(t: Seq<char>) -> bool {
    t == "tuition"@ || t == "hostel"@ || t == "transport"@ || t == "library"@
}

/// A date text that chrono reads as `YYYY-MM-DD`.
pub open spec fn is_date(s: Seq<char>) -> bool {
    ymd_parse(s) is Some
}

/// The message of a student id that is blank or too long.
pub open spec fn student_id_message() -> Seq<char> {
    "student_id must be between 1 and 50 characters"@
}

/// The message of a receipt number that is blank or too long.
pub open spec fn receipt_no_message() -> Seq<char> {
    "receipt_no must be between 1 and 50 characters"@
}

/// The message of a fee payment mode outside the list.
pub open spec fn fee_mode_message() -> Seq<char> {
    "payment_mode must be Online, Cash, Bank, Cheque, UPI, Card, or Waived"@
}

/// The message of an expense payment mode outside the list.
pub open spec fn expense_mode_message() -> Seq<char> {
    "payment_mode must be Online, Cash, Bank, or Cheque"@
}

/// The first rule that a fee collection request breaks, as its message, or
/// `None` when it breaks none.
pub open spec fn add_fee_problem(p: AddFeeRecordPayload) -> Option<Seq<char>> {
    if !bounded_text(p.student_id@, 50) {
        Some(student_id_message())
    } else if !bounded_text(p.receipt_no@, 50) {
        Some(receipt_no_message())
    } else if !is_date(p.receipt_date@) {
        Some("receipt_date must be in YYYY-MM-DD format"@)
    } else if !is_date(p.payment_date@) {
        Some("payment_date must be in YYYY-MM-DD format"@)
    } else if below_zero(p.amount) {
        Some("amount must be positive or zero"@)
    } else if p.due_fees matches Some(d) && below_zero(d) {
        Some("due_fees must be positive or zero"@)
    } else if p.discount matches Some(d) && below_zero(d) {
        Some("discount must be positive or zero"@)
    } else if p.payment_mode matches Some(m) && !fee_mode_ok(m@) {
        Some(fee_mode_message())
    } else {
        None
    }
}

/// The first rule that a fee update breaks, as its message, or `None`.
pub open spec fn update_fee_problem(p: UpdateFeeRecordPayload) -> Option<Seq<char>> {
    if p.student_id matches Some(s) && !bounded_text(s@, 50) {
        Some(student_id_message())
    } else if p.fee_type matches Some(t) && !fee_type_ok(t@) {
        Some("fee_type must be tuition, hostel, transport, or library"@)
    } else if p.receipt_no matches Some(s) && !bounded_text(s@, 50) {
        Some(receipt_no_message())
    } else if p.receipt_date matches Some(s) && !is_date(s@) {
        Some("receipt_date must be in YYYY-MM-DD format"@)
    } else if p.payment_date matches Some(s) && !is_date(s@) {
        Some("payment_date must be in YYYY-MM-DD format"@)
    } else if p.amount matches Some(a) && below_zero(a) {
        Some("amount must be positive or zero"@)
    } else if p.due_fees matches Some(d) && below_zero(d) {
        Some("due_fees must be positive or zero"@)
    } else if p.discount matches Some(d) && below_zero(d) {
        Some("discount must be positive or zero"@)
    } else if p.payment_mode matches Some(m) && !fee_mode_ok(m@) {
        Some(fee_mode_message())
    } else {
        None
    }
}

/// An optional expense date is fine when absent, empty or a date.
pub open spec fn expense_date_ok(d: Option<String>) -> bool {
    match d {
        Some(s) => s@.len() == 0 || is_date(s@),
        None => true,
    }
}

/// The first rule that an expense request breaks, as its message, or
/// `None`.
pub open spec fn add_expense_problem(p: AddExpensePayload) -> Option<Seq<char>> {
    if !bounded_text(p.description@, 255) {
        Some("description is required and must not exceed 255 characters"@)
    } else if at_most_zero(p.amount) {
        Some("amount must be greater than 0"@)
    } else if !expense_date_ok(p.date) {
        Some("date must be in YYYY-MM-DD format"@)
    } else if p.payment_mode matches Some(m) && !expense_mode_ok(m@) {
        Some(expense_mode_message())
    } else {
        None
    }
}

/// The first rule that an expense update breaks, as its message, or
/// `None`.
pub open spec fn update_expense_problem(p: UpdateExpensePayload) -> Option<Seq<char>> {
    if p.description matches Some(s) && !bounded_text(s@, 255) {
        Some("description must not exceed 255 characters"@)
    } else if p.amount matches Some(a) && at_most_zero(a) {
        Some("amount must be greater than 0"@)
    } else if p.category matches Some(s) && !bounded_text(s@, 100) {
        Some("category must not exceed 100 characters"@)
    } else if !expense_date_ok(p.date) {
        Some("date must be in YYYY-MM-DD format"@)
    } else if p.payment_mode matches Some(m) && !expense_mode_ok(m@) {
        Some(expense_mode_message())
    } else {
        None
    }
}

/// The outcome of a validation: `Ok` when no rule is broken, else a bad
/// request with the first broken rule's message.
pub open spec fn validation_outcome(r: Result<(), AppError>, problem: Option<Seq<char>>) -> bool {
    match problem {
        None => r is Ok,
        Some(m) => r matches Err(e) && e.is_bad_request(m),
    }
}

/// Whether a required text is not blank and at most `max` bytes long.
fn check_bounded(s: &str, max: usize) -> (b: bool)
    ensures
        b == bounded_text(s@, max as nat),
{
    let bytes = s.as_bytes();
    !is_blank(s) && bytes.len() <= max
}

/// Whether a text is a `YYYY-MM-DD` date.
fn check_date(s: &str) -> (b: bool)
    ensures
        b == is_date(s@),
{
    parse_ymd(s).is_some()
}

/// Whether a fee payment mode is in the list.
fn check_fee_mode(m: &str) -> (b: bool)
    ensures
        b == fee_mode_ok(m@),
{
    str_eq(m, "Online") || str_eq(m, "Cash") || str_eq(m, "Bank") || str_eq(m, "Cheque") || str_eq(
        m,
        "Waived",
    ) || str_eq(m, "UPI") || str_eq(m, "Card")
}

/// Whether an expense payment mode is in the list.
fn check_expense_mode(m: &str) -> (b: bool)
    ensures
        b == expense_mode_ok(m@),
{
    str_eq(m, "Online") || str_eq(m, "Cash") || str_eq(m, "Bank") || str_eq(m, "Cheque")
}

/// Whether an optional expense date is absent, empty or a date.
fn check_expense_date(d: &Option<String>) -> (b: bool)
    ensures
        b == expense_date_ok(*d),
{
    match d {
        Some(s) => s.as_str().unicode_len() == 0 || check_date(s.as_str()),
        None => true,
    }
}

impl AddFeeRecordPayload {
    /// Checks a fee collection request, rule by rule.
    pub fn validate(&self) -> (r: Result<(), AppError>)
        ensures
            validation_outcome(r, add_fee_problem(*self)),
    {
        if !check_bounded(self.student_id.as_str(), 50) {
            return Err(bad_request("student_id must be between 1 and 50 characters"));
        }
        if !check_bounded(self.receipt_no.as_str(), 50) {
            return Err(bad_request("receipt_no must be between 1 and 50 characters"));
        }
        if !check_date(self.receipt_date.as_str()) {
            return Err(bad_request("receipt_date must be in YYYY-MM-DD format"));
        }
        if !check_date(self.payment_date.as_str()) {
            return Err(bad_request("payment_date must be in YYYY-MM-DD format"));
        }
        if let AmountSign::Negative = self.amount {
            return Err(bad_request("amount must be positive or zero"));
        }
        if let Some(AmountSign::Negative) = self.due_fees {
            return Err(bad_request("due_fees must be positive or zero"));
        }
        if let Some(AmountSign::Negative) = self.discount {
            return Err(bad_request("discount must be positive or zero"));
        }
        if let Some(m) = &self.payment_mode {
            if !check_fee_mode(m.as_str()) {
                return Err(
                    bad_request("payment_mode must be Online, Cash, Bank, Cheque, UPI, Card, or Waived"),
                );
            }
        }
        Ok(())
    }
}

impl UpdateFeeRecordPayload {
    /// Checks a fee update, rule by rule; absent fields are not checked.
    pub fn validate(&self) -> (r: Result<(), AppError>)
        ensures
            validation_outcome(r, update_fee_problem(*self)),
    {
        if let Some(s) = &self.student_id {
            if !check_bounded(s.as_str(), 50) {
                return Err(bad_request("student_id must be between 1 and 50 characters"));
            }
        }
        if let Some(t) = &self.fee_type {
            let t = t.as_str();
            if !(str_eq(t, "tuition") || str_eq(t, "hostel") || str_eq(t, "transport") || str_eq(
                t,
                "library",
            )) {
                return Err(bad_request("fee_type must be tuition, hostel, transport, or library"));
            }
        }
        if let Some(s) = &self.receipt_no {
            if !check_bounded(s.as_str(), 50) {
                return Err(bad_request("receipt_no must be between 1 and 50 characters"));
            }
        }
        if let Some(s) = &self.receipt_date {
            if !check_date(s.as_str()) {
                return Err(bad_request("receipt_date must be in YYYY-MM-DD format"));
            }
        }
        if let Some(s) = &self.payment_date {
            if !check_date(s.as_str()) {
                return Err(bad_request("payment_date must be in YYYY-MM-DD format"));
            }
        }
        if let Some(AmountSign::Negative) = self.amount {
            return Err(bad_request("amount must be positive or zero"));
        }
        if let Some(AmountSign::Negative) = self.due_fees {
            return Err(bad_request("due_fees must be positive or zero"));
        }
        if let Some(AmountSign::Negative) = self.discount {
            return Err(bad_request("discount must be positive or zero"));
        }
        if let Some(m) = &self.payment_mode {
            if !check_fee_mode(m.as_str()) {
                return Err(
                    bad_request("payment_mode must be Online, Cash, Bank, Cheque, UPI, Card, or Waived"),
                );
            }
        }
        Ok(())
    }
}

impl AddExpensePayload {
    /// Checks an expense request, rule by rule.
    pub fn validate(&self) -> (r: Result<(), AppError>)
        ensures
            validation_outcome(r, add_expense_problem(*self)),
    {
        if !check_bounded(self.description.as_str(), 255) {
            return Err(bad_request("description is required and must not exceed 255 characters"));
        }
        match self.amount {
            AmountSign::Negative | AmountSign::Zero => {
                return Err(bad_request("amount must be greater than 0"));
            },
            _ => {},
        }
        if !check_expense_date(&self.date) {
            return Err(bad_request("date must be in YYYY-MM-DD format"));
        }
        if let Some(m) = &self.payment_mode {
            if !check_expense_mode(m.as_str()) {
                return Err(bad_request("payment_mode must be Online, Cash, Bank, or Cheque"));
            }
        }
        Ok(())
    }
}

impl UpdateExpensePayload {
    /// Checks an expense update, rule by rule; absent fields are not
    /// checked.
    pub fn validate(&self) -> (r: Result<(), AppError>)
        ensures
            validation_outcome(r, update_expense_problem(*self)),
    {
        if let Some(s) = &self.description {
            if !check_bounded(s.as_str(), 255) {
                return Err(bad_request("description must not exceed 255 characters"));
            }
        }
        match self.amount {
            Some(AmountSign::Negative) | Some(AmountSign::Zero) => {
                return Err(bad_request("amount must be greater than 0"));
            },
            _ => {},
        }
        if let Some(s) = &self.category {
            if !check_bounded(s.as_str(), 100) {
                return Err(bad_request("category must not exceed 100 characters"));
            }
        }
        if !check_expense_date(&self.date) {
            return Err(bad_request("date must be in YYYY-MM-DD format"));
        }
        if let Some(m) = &self.payment_mode {
            if !check_expense_mode(m.as_str()) {
                return Err(bad_request("payment_mode must be Online, Cash, Bank, or Cheque"));
            }
        }
        Ok(())
    }
}

/// The paths a fee collection takes, by fee type.
#[derive(Clone, Copy, Debug)]
pub enum FeeKind {
    Library,
    Transport,
    Hostel,
    /// Any other fee type, kept as given.
    Tuition,
}

/// The path of a fee type: `library`, `transport` and `hostel` have their
/// own; every other type is collected as tuition.
pub open spec fn fee_kind_spec(t: Seq<char>) -> FeeKind {
    if t == "library"@ {
        FeeKind::Library
    } else if t == "transport"@ {
        FeeKind::Transport
    } else if t == "hostel"@ {
        FeeKind::Hostel
    } else {
        FeeKind::Tuition
    }
}

/// The path of a fee type.
pub fn fee_kind(fee_type: &str) -> (k: FeeKind)
    ensures
        k == fee_kind_spec(fee_type@),
{
    if str_eq(fee_type, "library") {
        FeeKind::Library
    } else if str_eq(fee_type, "transport") {
        FeeKind::Transport
    } else if str_eq(fee_type, "hostel") {
        FeeKind::Hostel
    } else {
        FeeKind::Tuition
    }
}

/// A receipt number counts as given unless it is blank or the dash `—`.
pub open spec fn receipt_given(r: Seq<char>) -> bool {
    trim_spec(r).len() != 0 && r != "—"@
}

/// The prefix of receipt numbers generated for each path.
pub open spec fn receipt_prefix(k: FeeKind) -> Seq<char> {
    match k {
        FeeKind::Library => "LIB"@,
        FeeKind::Transport => "TR"@,
        FeeKind::Hostel => "HS"@,
        FeeKind::Tuition => "TU"@,
    }
}

/// The receipt number of a collection: the given one, or the path's prefix,
/// a dash and a time stamp.
pub open spec fn receipt_number_spec(k: FeeKind, given: Seq<char>, stamp: int) -> Seq<char> {
    if receipt_given(given) {
        given
    } else {
        receipt_prefix(k) + "-"@ + dec_int_spec(stamp)
    }
}

/// A receipt number given with a collection is the number it keeps,
/// whatever the time; without one, the number starts with the path's
/// prefix and a dash, and collections stamped at different times get
/// different numbers.
pub proof fn law_receipt_numbers(k: FeeKind, given: Seq<char>, stamp: int, stamp2: int)
    ensures
        receipt_given(given) ==> receipt_number_spec(k, given, stamp) == given,
        !receipt_given(given) ==> receipt_number_spec(k, given, stamp).subrange(
            0,
            receipt_prefix(k).len() + 1int,
        ) == receipt_prefix(k) + "-"@,
        !receipt_given(given) && stamp != stamp2 ==> receipt_number_spec(k, given, stamp)
            != receipt_number_spec(k, given, stamp2),
{
    reveal_strlit("-");
    if !receipt_given(given) {
        let head = receipt_prefix(k) + "-"@;
        let a = receipt_number_spec(k, given, stamp);
        let b = receipt_number_spec(k, given, stamp2);
        assert(a.subrange(0, head.len() as int) =~= head);
        if stamp != stamp2 && a == b {
            assert(a.subrange(head.len() as int, a.len() as int) =~= dec_int_spec(stamp));
            assert(b.subrange(head.len() as int, b.len() as int) =~= dec_int_spec(stamp2));
            lemma_dec_int_injective(stamp, stamp2);
        }
    }
}

/// Whether a receipt number counts as given.
pub fn is_receipt_given(r: &str) -> (b: bool)
    ensures
        b == receipt_given(r@),
{
    !is_blank(r) && !str_eq(r, "—")
}

/// The receipt number of a collection, with `stamp` for a generated one.
pub fn receipt_number(k: &FeeKind, given: &str, stamp: i64) -> (r: String)
    ensures
        r@ == receipt_number_spec(*k, given@, stamp as int),
{
    if is_receipt_given(given) {
        return String::from_str(given);
    }
    let mut r = match k {
        FeeKind::Library => String::from_str("LIB"),
        FeeKind::Transport => String::from_str("TR"),
        FeeKind::Hostel => String::from_str("HS"),
        FeeKind::Tuition => String::from_str("TU"),
    };
    r.append("-");
    let d = dec_i64(stamp);
    r.append(d.as_str());
    r
}

/// The current time in microseconds since the Unix epoch
/// (`chrono::Utc::now().timestamp_micros()`). It depends on the clock, so
/// nothing is stated of it.
#[verifier::external_body]
fn now_micros() -> (t: i64) {
    chrono::Utc::now().timestamp_micros()
}

/// The current time in whole seconds since the Unix epoch
/// (`chrono::Utc::now().timestamp()`). It depends on the clock, so nothing
/// is stated of it.
#[verifier::external_body]
fn now_seconds() -> (t: i64) {
    chrono::Utc::now().timestamp()
}

/// The receipt number of a collection, stamped with the current time in
/// microseconds when none was given.
pub fn fresh_receipt_number(k: &FeeKind, given: &str) -> (r: String)
    ensures
        exists|stamp: i64| r@ == receipt_number_spec(*k, given@, stamp as int),
        receipt_given(given@) ==> r@ == given@,
{
    let stamp = now_micros();
    receipt_number(k, given, stamp)
}

/// How a collection is written once its receipt number is known.
#[derive(Debug)]
pub enum ReceiptWrite {
    /// A new fee record.
    Insert,
    /// The record that already has this receipt number is overwritten.
    Overwrite,
}

/// The message of a tuition receipt number that is already logged.
pub open spec fn receipt_logged_message(r: Seq<char>) -> Seq<char> {
    "Receipt No. "@ + r + " has already been logged"@
}

/// The message of a transport receipt number that already exists.
pub open spec fn receipt_exists_message(r: Seq<char>) -> Seq<char> {
    "Receipt No. '"@ + r
        + "' already exists in fee records. Please use a unique receipt number, or use the Edit button on the table row to modify existing records."@
}

/// What a collection does when its receipt number is already on a record
/// (`taken`): tuition refuses a given number with a conflict (a generated
/// one is not looked up), transport refuses any with a bad request, hostel
/// and library fees overwrite the record.
pub open spec fn receipt_clash_spec(k: FeeKind, receipt_no: Seq<char>, taken: bool) -> Result<
    ReceiptWrite,
    (ErrorKindTag, Seq<char>),
> {
    if !taken {
        Ok(ReceiptWrite::Insert)
    } else {
        match k {
            FeeKind::Tuition => if receipt_given(receipt_no) {
                Err((ErrorKindTag::Conflict, receipt_logged_message(receipt_no)))
            } else {
                Ok(ReceiptWrite::Insert)
            },
            FeeKind::Transport => Err((ErrorKindTag::BadRequest, receipt_exists_message(receipt_no))),
            _ => Ok(ReceiptWrite::Overwrite),
        }
    }
}

/// What a collection does with a receipt number that is already on a
/// record, by path: a free number always gives a new record; a tuition
/// collection refuses a given number (neither blank nor the dash) with a
/// conflict that names it, and writes a new record under a generated one;
/// a transport collection refuses any taken number as a bad request; a
/// hostel or library collection overwrites the record that has it.
pub proof fn law_receipt_clash_by_path(k: FeeKind, receipt_no: Seq<char>, taken: bool)
    ensures
        !taken ==> (receipt_clash_spec(k, receipt_no, taken) matches Ok(w) && w is Insert),
        taken && k is Tuition && trim_spec(receipt_no).len() != 0 && receipt_no != "—"@
            ==> receipt_clash_spec(k, receipt_no, taken) == Err::<ReceiptWrite, (ErrorKindTag, Seq<char>)>(
            (ErrorKindTag::Conflict, "Receipt No. "@ + receipt_no + " has already been logged"@),
        ),
        taken && k is Tuition && (trim_spec(receipt_no).len() == 0 || receipt_no == "—"@)
            ==> (receipt_clash_spec(k, receipt_no, taken) matches Ok(w) && w is Insert),
        taken && k is Transport ==> (receipt_clash_spec(k, receipt_no, taken) matches Err(named)
            && named.0 is BadRequest),
        taken && (k is Hostel || k is Library) ==> (receipt_clash_spec(k, receipt_no, taken) matches Ok(
            w,
        ) && w is Overwrite),
{
}

/// The kind of an error that a rule gives, for stating rules as values.
#[derive(Debug)]
pub enum ErrorKindTag {
    BadRequest,
    NotFound,
    Conflict,
}

/// Whether an error is of the tagged kind with the message.
pub open spec fn error_is(e: AppError, tag: ErrorKindTag, msg: Seq<char>) -> bool {
    match tag {
        ErrorKindTag::BadRequest => e.is_bad_request(msg),
        ErrorKindTag::NotFound => e.is_not_found(msg),
        ErrorKindTag::Conflict => e.is_conflict(msg),
    }
}

/// Whether an error is the one that a rule names.
pub open spec fn error_matches(e: AppError, named: (ErrorKindTag, Seq<char>)) -> bool {
    let (tag, msg) = named;
    error_is(e, tag, msg)
}

/// Whether a result meets a rule stated as a value.
pub open spec fn meets<T>(r: Result<T, AppError>, s: Result<T, (ErrorKindTag, Seq<char>)>) -> bool {
    match s {
        Ok(v) => r == Ok::<T, AppError>(v),
        Err((tag, msg)) => r matches Err(e) && error_is(e, tag, msg),
    }
}

/// Decides how a collection is written, given whether its receipt number
/// is already on a record.
pub fn receipt_clash(k: &FeeKind, receipt_no: &str, taken: bool) -> (r: Result<ReceiptWrite, AppError>)
    ensures
        meets(r, receipt_clash_spec(*k, receipt_no@, taken)),
{
    if !taken {
        return Ok(ReceiptWrite::Insert);
    }
    match k {
        FeeKind::Tuition => {
            if is_receipt_given(receipt_no) {
                let mut m = String::from_str("Receipt No. ");
                m.append(receipt_no);
                m.append(" has already been logged");
                Err(AppError::Conflict(m))
            } else {
                Ok(ReceiptWrite::Insert)
            }
        },
        FeeKind::Transport => {
            let mut m = String::from_str("Receipt No. '");
            m.append(receipt_no);
            m.append(
                "' already exists in fee records. Please use a unique receipt number, or use the Edit button on the table row to modify existing records.",
            );
            Err(AppError::BadRequest(m))
        },
        _ => Ok(ReceiptWrite::Overwrite),
    }
}

/// Whether a collection looks up the record that already has its receipt
/// number before it is planned: a tuition collection does so only for a
/// registered student and a number that the request gave (a generated
/// number is not looked up, and an unregistered student is refused first);
/// every other path always does.
pub open spec fn receipt_lookup_spec(k: FeeKind, given: Seq<char>, registered: bool) -> bool {
    !(k is Tuition) || (registered && receipt_given(given))
}

/// Decides whether a collection looks up its receipt number.
pub fn receipt_lookup_needed(k: &FeeKind, given: &str, registered: bool) -> (b: bool)
    ensures
        b == receipt_lookup_spec(*k, given@, registered),
{
    match k {
        FeeKind::Tuition => registered && is_receipt_given(given),
        _ => true,
    }
}

/// Whether a collection path first checks that the student is registered:
/// every path but the library's, which registers a placeholder instead.
pub open spec fn registry_lookup_spec(k: FeeKind) -> bool {
    !(k is Library)
}

/// Decides whether a collection looks the student up in the registry.
pub fn registry_lookup_needed(k: &FeeKind) -> (b: bool)
    ensures
        b == registry_lookup_spec(*k),
{
    match k {
        FeeKind::Library => false,
        _ => true,
    }
}

/// A receipt lookup that a collection skips could not change its plan: a
/// tuition collection for an unregistered student is refused whatever the
/// lookup would say, and a collection that does not look up its number
/// writes a new record.
pub proof fn law_skipped_lookup_is_harmless(
    k: FeeKind,
    fee_type: Seq<char>,
    p: AddFeeRecordPayload,
    registered: bool,
    receipt_no: Seq<char>,
    r: Result<CollectionPlan, AppError>,
)
    requires
        !receipt_lookup_spec(k, p.receipt_no@, registered),
        collection_ok(k, fee_type, p, registered, receipt_no, false, r),
    ensures
        k is Tuition,
        !registered ==> (r matches Err(e) && e.is_not_found(unregistered_message(p.student_id@))),
        registered ==> r is Err || (r matches Ok(x) && x.write is Insert),
{
}

/// The message of a student id that is not in the student registry.
pub open spec fn unregistered_message(student_id: Seq<char>) -> Seq<char> {
    "Student with ID "@ + student_id + " is not registered"@
}

/// A tuition collection, and any fee update that names a student, needs
/// the student to be registered.
pub fn require_registered(student_id: &str, registered: bool) -> (r: Result<(), AppError>)
    ensures
        registered ==> r is Ok,
        !registered ==> (r matches Err(e) && e.is_not_found(unregistered_message(student_id@))),
{
    if registered {
        Ok(())
    } else {
        let mut m = String::from_str("Student with ID ");
        m.append(student_id);
        m.append(" is not registered");
        Err(AppError::NotFound(m))
    }
}

/// The name given to a student created on the fly: `Student ` and the id.
pub open spec fn default_student_name_spec(student_id: Seq<char>) -> Seq<char> {
    "Student "@ + student_id
}

/// The name given to a student created on the fly.
pub fn default_student_name(student_id: &str) -> (r: String)
    ensures
        r@ == default_student_name_spec(student_id@),
{
    let mut r = String::from_str("Student ");
    r.append(student_id);
    r
}

/// A student that a fee collection creates when the id is not registered.
#[derive(Debug)]
pub struct PlaceholderStudent {
    pub student_id: String,
    pub name: String,
    pub class_name: String,
    /// Date of birth: always 1 January 2000.
    pub dob: CalDate,
}

/// The class that hostel and library collections give new students.
pub open spec fn default_class_spec() -> Seq<char> {
    "B.Sc. Nursing 1st Year"@
}

/// The class that transport collections give new students: the first
/// class by name, or `CLASS 8` when there is none.
pub fn transport_default_class(first_class: Option<String>) -> (r: String)
    ensures
        r@ == (match first_class {
            Some(c) => c@,
            None => "CLASS 8"@,
        }),
{
    match first_class {
        Some(c) => c,
        None => String::from_str("CLASS 8"),
    }
}

/// The student that a hostel or transport collection creates: the given
/// name and class where there are any, else `Student <id>` and the default
/// class; born on 1 January 2000.
pub fn placeholder_student(p: &AddFeeRecordPayload, default_class: &str) -> (r: PlaceholderStudent)
    ensures
        r.student_id@ == p.student_id@,
        r.name@ == (match p.student_name {
            Some(n) => n@,
            None => default_student_name_spec(p.student_id@),
        }),
        r.class_name@ == (match p.class_name {
            Some(c) => c@,
            None => default_class@,
        }),
        r.dob == (CalDate { year: 2000, month: 1, day: 1 }),
{
    PlaceholderStudent {
        student_id: p.student_id.clone(),
        name: match &p.student_name {
            Some(n) => n.clone(),
            None => default_student_name(p.student_id.as_str()),
        },
        class_name: match &p.class_name {
            Some(c) => c.clone(),
            None => String::from_str(default_class),
        },
        dob: CalDate { year: 2000, month: 1, day: 1 },
    }
}

/// The student that a library collection creates: always named
/// `Student <id>`, in the default class.
pub fn library_placeholder_student(student_id: &str) -> (r: PlaceholderStudent)
    ensures
        r.student_id@ == student_id@,
        r.name@ == default_student_name_spec(student_id@),
        r.class_name@ == default_class_spec(),
        r.dob == (CalDate { year: 2000, month: 1, day: 1 }),
{
    PlaceholderStudent {
        student_id: String::from_str(student_id),
        name: default_student_name(student_id),
        class_name: String::from_str("B.Sc. Nursing 1st Year"),
        dob: CalDate { year: 2000, month: 1, day: 1 },
    }
}

/// Whether a student is the placeholder that a hostel or transport
/// collection creates with `default_class`.
pub open spec fn placeholder_ok(p: AddFeeRecordPayload, default_class: Seq<char>, x: PlaceholderStudent) -> bool {
    &&& x.student_id@ == p.student_id@
    &&& x.name@ == (match p.student_name {
        Some(n) => n@,
        None => default_student_name_spec(p.student_id@),
    })
    &&& x.class_name@ == (match p.class_name {
        Some(c) => c@,
        None => default_class,
    })
    &&& x.dob == (CalDate { year: 2000, month: 1, day: 1 })
}

/// A hostel or transport collection's placeholder student has the
/// request's id, the given name and class where they are given (else
/// `Student <id>` and the default class), and is born on 1 January 2000.
pub proof fn law_placeholder_keeps_request(p: AddFeeRecordPayload, default_class: Seq<char>, x: PlaceholderStudent)
    requires
        placeholder_ok(p, default_class, x),
    ensures
        x.student_id@ == p.student_id@,
        p.student_name matches Some(n) ==> x.name@ == n@,
        p.student_name is None ==> x.name@ == "Student "@ + p.student_id@,
        p.class_name matches Some(c) ==> x.class_name@ == c@,
        p.class_name is None ==> x.class_name@ == default_class,
        x.dob.year == 2000 && x.dob.month == 1 && x.dob.day == 1,
{
}

/// What a collection does to the student registry before it is planned.
#[derive(Debug)]
pub struct StudentPrep {
    /// A master class added when it is missing.
    pub ensure_class: Option<String>,
    /// A student added when the id is missing.
    pub placeholder: Option<PlaceholderStudent>,
}

/// Whether a collection reads the first class by name before it prepares
/// the registry: only a transport collection for an unregistered student.
pub fn needs_first_class(k: &FeeKind, registered: bool) -> (b: bool)
    ensures
        b == (k is Transport && !registered),
{
    match k {
        FeeKind::Transport => !registered,
        _ => false,
    }
}

/// What a collection does to the registry: a library collection always
/// makes sure of the default class and of a `Student <id>` placeholder; a
/// hostel collection for an unregistered student makes sure of the default
/// class and adds a placeholder in it; a transport collection for an
/// unregistered student adds a placeholder in the first class by name (or
/// `CLASS 8`); a tuition collection, or any for a registered student but
/// the library's, does neither.
pub fn student_prep(k: &FeeKind, p: &AddFeeRecordPayload, registered: bool, first_class: Option<String>) -> (r:
    StudentPrep)
    ensures
        k is Library ==> (r.ensure_class matches Some(c) && c@ == default_class_spec()) && (r.placeholder matches Some(
            x,
        ) && x.student_id@ == p.student_id@ && x.name@ == default_student_name_spec(p.student_id@)
            && x.class_name@ == default_class_spec() && x.dob == (CalDate { year: 2000, month: 1, day: 1 })),
        k is Hostel && !registered ==> (r.ensure_class matches Some(c) && c@ == default_class_spec()) && (
        r.placeholder matches Some(x) && placeholder_ok(*p, default_class_spec(), x)),
        k is Transport && !registered ==> r.ensure_class is None && (r.placeholder matches Some(x)
            && placeholder_ok(
            *p,
            match first_class {
                Some(c) => c@,
                None => "CLASS 8"@,
            },
            x,
        )),
        (k is Tuition || (registered && !(k is Library))) ==> r.ensure_class is None && r.placeholder is None,
{
    match k {
        FeeKind::Library => StudentPrep {
            ensure_class: Some(String::from_str("B.Sc. Nursing 1st Year")),
            placeholder: Some(library_placeholder_student(p.student_id.as_str())),
        },
        FeeKind::Hostel => if registered {
            StudentPrep { ensure_class: None, placeholder: None }
        } else {
            StudentPrep {
                ensure_class: Some(String::from_str("B.Sc. Nursing 1st Year")),
                placeholder: Some(placeholder_student(p, "B.Sc. Nursing 1st Year")),
            }
        },
        FeeKind::Transport => if registered {
            StudentPrep { ensure_class: None, placeholder: None }
        } else {
            let class = transport_default_class(first_class);
            StudentPrep { ensure_class: None, placeholder: Some(placeholder_student(p, class.as_str())) }
        },
        FeeKind::Tuition => StudentPrep { ensure_class: None, placeholder: None },
    }
}

/// A student name from a fee form replaces the registered one unless it is
/// blank or a generated `Student STU-...` name.
pub open spec fn usable_name_spec(name: Seq<char>) -> bool {
    trim_spec(name).len() != 0 && !starts_with_spec(name, "Student STU-"@)
}

/// Whether a student name from a fee form replaces the registered one.
pub fn usable_name(name: &str) -> (b: bool)
    ensures
        b == usable_name_spec(name@),
{
    !is_blank(name) && !starts_with(name, "Student STU-")
}

/// A class or course label from a fee form, trimmed, counts unless it is
/// empty, the dash `—`, or a `select ...` placeholder (in any case).
pub open spec fn clean_label_spec(label: Seq<char>) -> Option<Seq<char>> {
    let c = trim_spec(label);
    if c.len() != 0 && c != "—"@ && !contains_spec(lowercase_of(c), "select"@) {
        Some(c)
    } else {
        None
    }
}

/// The trimmed label when it counts.
pub fn clean_label(label: &str) -> (r: Option<String>)
    ensures
        match r {
            Some(c) => clean_label_spec(label@) == Some(c@),
            None => clean_label_spec(label@) is None,
        },
{
    let c = trim(label);
    if c.unicode_len() != 0 && !str_eq(c, "—") {
        let low = to_lower(c);
        if !contains(low.as_str(), "select") {
            return Some(String::from_str(c));
        }
    }
    None
}

/// A transport form's student name counts unless it is blank, the dash or
/// holds `Select` (this one is case-sensitive).
pub open spec fn transport_name_spec(name: Seq<char>) -> bool {
    trim_spec(name).len() != 0 && name != "—"@ && !contains_spec(name, "Select"@)
}

/// Whether a transport form's student name counts.
pub fn transport_name(name: &str) -> (b: bool)
    ensures
        b == transport_name_spec(name@),
{
    !is_blank(name) && !str_eq(name, "—") && !contains(name, "Select")
}

/// The message of a class label that is not among the master classes.
pub open spec fn unknown_class_message(label: Seq<char>) -> Seq<char> {
    "Invalid Class Name '"@ + label
        + "'. It does not exist in master classes. Please select a valid class option."@
}

/// The message of a course label that is not among the master courses.
pub open spec fn unknown_course_message(label: Seq<char>) -> Seq<char> {
    "Invalid Course Name '"@ + label
        + "'. It does not exist in master courses. Please select a valid course option."@
}

/// A transport form's class or course label, once looked up: a label that
/// counts must name a master entry (`official`, matched without regard to
/// case and surrounding blanks), whose own spelling is then used.
pub fn official_label(label: &Option<String>, official: Option<String>, is_class: bool) -> (r:
    Result<Option<String>, AppError>)
    ensures
        match label {
            None => r == Ok::<Option<String>, AppError>(None),
            Some(l) => match clean_label_spec(l@) {
                None => r == Ok::<Option<String>, AppError>(None),
                Some(c) => match official {
                    Some(o) => r == Ok::<Option<String>, AppError>(Some(o)),
                    None => r matches Err(e) && e.is_bad_request(
                        if is_class {
                            unknown_class_message(c)
                        } else {
                            unknown_course_message(c)
                        },
                    ),
                },
            },
        },
{
    match label {
        None => Ok(None),
        Some(l) => match clean_label(l.as_str()) {
            None => Ok(None),
            Some(c) => match official {
                Some(o) => Ok(Some(o)),
                None => {
                    let mut m = if is_class {
                        String::from_str("Invalid Class Name '")
                    } else {
                        String::from_str("Invalid Course Name '")
                    };
                    m.append(c.as_str());
                    if is_class {
                        m.append(
                            "'. It does not exist in master classes. Please select a valid class option.",
                        );
                    } else {
                        m.append(
                            "'. It does not exist in master courses. Please select a valid course option.",
                        );
                    }
                    Err(AppError::BadRequest(m))
                },
            },
        },
    }
}

/// A class or course is only filled in where the student has none yet: a
/// current value that is absent or blank.
pub open spec fn fill_if_blank_spec(new: Option<Seq<char>>, current: Option<Seq<char>>) -> Option<
    Seq<char>,
> {
    match current {
        Some(c) => if trim_spec(c).len() == 0 {
            new
        } else {
            None
        },
        None => new,
    }
}

/// Keeps a new class or course only where the current one is blank.
pub fn fill_if_blank(new: Option<String>, current: &Option<String>) -> (r: Option<String>)
    ensures
        opt_view(r) == fill_if_blank_spec(opt_view(new), opt_view(*current)),
{
    match current {
        Some(c) => if is_blank(c.as_str()) {
            new
        } else {
            None
        },
        None => new,
    }
}

/// The stored fields of a fee record that the fee rules decide; the money
/// amounts are kept beside them.
#[derive(Debug)]
pub struct FeeRow {
    pub student_id: String,
    pub fee_type: String,
    pub room: String,
    pub bus_route: String,
    pub bus_no: String,
    pub receipt_book_no: String,
    pub receipt_no: String,
    pub receipt_date: CalDate,
    pub payment_date: CalDate,
    pub utr_no: String,
    pub payment_mode: String,
    pub remarks: Option<String>,
    pub duration: Option<i32>,
    pub start_date: Option<CalDate>,
    pub end_date: Option<CalDate>,
}

/// chrono's reading of a date text as a date.
pub open spec fn date_read(s: Seq<char>) -> Option<CalDate> {
    match ymd_parse(s) {
        Some((y, m, d)) => Some(CalDate { year: y, month: m, day: d }),
        None => None,
    }
}

/// Reads a required date of a fee record.
pub fn read_fee_date(s: &str, msg: &str) -> (r: Result<CalDate, AppError>)
    ensures
        match date_read(s@) {
            Some(d) => r == Ok::<CalDate, AppError>(d),
            None => r matches Err(e) && e.is_bad_request(msg@),
        },
{
    match parse_ymd(s) {
        Some(d) => Ok(d),
        None => Err(bad_request(msg)),
    }
}

/// A transport period date of a new collection: read from the trimmed text,
/// and left out when that is empty or no date.
pub open spec fn period_date_spec(field: Option<Seq<char>>) -> Option<CalDate> {
    match field {
        Some(t) => if trim_spec(t).len() == 0 {
            None
        } else {
            date_read(trim_spec(t))
        },
        None => None,
    }
}

/// Reads a transport period date of a new collection.
pub fn period_date(field: &Option<String>) -> (r: Option<CalDate>)
    ensures
        r == period_date_spec(opt_view(*field)),
{
    match field {
        Some(t) => {
            let c = trim(t.as_str());
            if c.unicode_len() == 0 {
                None
            } else {
                parse_ymd(c)
            }
        },
        None => None,
    }
}

/// Whether a new fee record holds what a collection of kind `k` stores.
pub open spec fn new_row_ok(
    k: FeeKind,
    fee_type: Seq<char>,
    p: AddFeeRecordPayload,
    receipt_no: Seq<char>,
    x: FeeRow,
) -> bool {
    &&& x.student_id@ == p.student_id@
    &&& x.fee_type@ == (match k {
        FeeKind::Library => "library"@,
        FeeKind::Transport => "transport"@,
        FeeKind::Hostel => "hostel"@,
        FeeKind::Tuition => fee_type,
    })
    &&& x.room@ == (match k {
        FeeKind::Library => text_or(p.room, "Library Fine"@),
        FeeKind::Transport => "—"@,
        _ => text_or(p.room, "—"@),
    })
    &&& x.bus_route@ == (if k is Transport {
        text_or(p.bus_route, "—"@)
    } else {
        "—"@
    })
    &&& x.bus_no@ == (if k is Transport {
        text_or(p.bus_no, "—"@)
    } else {
        "—"@
    })
    &&& x.receipt_book_no@ == text_or(p.receipt_book_no, "—"@)
    &&& x.receipt_no@ == receipt_no
    &&& Some(x.receipt_date) == date_read(p.receipt_date@)
    &&& Some(x.payment_date) == date_read(p.payment_date@)
    &&& x.utr_no@ == text_or(p.utr_no, "—"@)
    &&& x.payment_mode@ == text_or(p.payment_mode, "Online"@)
    &&& opt_view(x.remarks) == Some(text_or(p.remarks, "—"@))
    &&& x.duration == (if k is Transport {
        Some(
            match p.duration {
                Some(d) => d,
                None => 1i32,
            },
        )
    } else {
        None
    })
    &&& x.start_date == (if k is Transport {
        period_date_spec(opt_view(p.start_date))
    } else {
        None
    })
    &&& x.end_date == (if k is Transport {
        period_date_spec(opt_view(p.end_date))
    } else {
        None
    })
}

/// Whether the discount of a collection is taken from the request (it is,
/// but for library fines, whose discount is zero).
pub open spec fn keeps_discount(k: FeeKind) -> bool {
    !(k is Library)
}

/// Whether the discount of a collection is taken from the request.
pub fn discount_from_request(k: &FeeKind) -> (b: bool)
    ensures
        b == keeps_discount(*k),
{
    match k {
        FeeKind::Library => false,
        _ => true,
    }
}

/// The fee record that a collection stores, once its receipt number is
/// known: the dates must read as dates (receipt date first), and absent
/// fields take the path's defaults.
pub fn new_fee_row(k: &FeeKind, fee_type: &str, p: &AddFeeRecordPayload, receipt_no: String) -> (r:
    Result<FeeRow, AppError>)
    ensures
        date_read(p.receipt_date@) is None ==> (r matches Err(e) && e.is_bad_request(
            "Invalid receipt date format"@,
        )),
        date_read(p.receipt_date@) is Some && date_read(p.payment_date@) is None ==> (r matches Err(
            e,
        ) && e.is_bad_request("Invalid payment date format"@)),
        date_read(p.receipt_date@) is Some && date_read(p.payment_date@) is Some ==> (r matches Ok(
            x,
        ) && new_row_ok(*k, fee_type@, *p, receipt_no@, x)),
{
    let receipt_date = read_fee_date(p.receipt_date.as_str(), "Invalid receipt date format")?;
    let payment_date = read_fee_date(p.payment_date.as_str(), "Invalid payment date format")?;
    let transport = match k {
        FeeKind::Transport => true,
        _ => false,
    };
    let fee_type = match k {
        FeeKind::Library => String::from_str("library"),
        FeeKind::Transport => String::from_str("transport"),
        FeeKind::Hostel => String::from_str("hostel"),
        FeeKind::Tuition => String::from_str(fee_type),
    };
    let room = match k {
        FeeKind::Library => text_or_default(&p.room, "Library Fine"),
        FeeKind::Transport => String::from_str("—"),
        _ => text_or_default(&p.room, "—"),
    };
    let bus_route = if transport {
        text_or_default(&p.bus_route, "—")
    } else {
        String::from_str("—")
    };
    let bus_no = if transport {
        text_or_default(&p.bus_no, "—")
    } else {
        String::from_str("—")
    };
    let duration = if transport {
        Some(
            match p.duration {
                Some(d) => d,
                None => 1i32,
            },
        )
    } else {
        None
    };
    let start_date = if transport {
        period_date(&p.start_date)
    } else {
        None
    };
    let end_date = if transport {
        period_date(&p.end_date)
    } else {
        None
    };
    Ok(FeeRow {
        student_id: p.student_id.clone(),
        fee_type,
        room,
        bus_route,
        bus_no,
        receipt_book_no: text_or_default(&p.receipt_book_no, "—"),
        receipt_no,
        receipt_date,
        payment_date,
        utr_no: text_or_default(&p.utr_no, "—"),
        payment_mode: text_or_default(&p.payment_mode, "Online"),
        remarks: Some(text_or_default(&p.remarks, "—")),
        duration,
        start_date,
        end_date,
    })
}

/// A collection stores what the request gives: the student, the receipt
/// number it was handed, the dates as read, and each optional text as
/// given, its path's default only where the request gives none (payment
/// mode `Online`; UTR, receipt book number and remarks the dash). The fee
/// type is the path's, the request's own only for tuition; bus route, bus
/// number, duration and period belong to transport records alone.
pub proof fn law_new_row_keeps_request(
    k: FeeKind,
    fee_type: Seq<char>,
    p: AddFeeRecordPayload,
    receipt_no: Seq<char>,
    x: FeeRow,
)
    requires
        new_row_ok(k, fee_type, p, receipt_no, x),
    ensures
        x.student_id@ == p.student_id@,
        x.receipt_no@ == receipt_no,
        date_read(p.receipt_date@) == Some(x.receipt_date),
        date_read(p.payment_date@) == Some(x.payment_date),
        p.payment_mode matches Some(m) ==> x.payment_mode@ == m@,
        p.payment_mode is None ==> x.payment_mode@ == "Online"@,
        p.utr_no matches Some(m) ==> x.utr_no@ == m@,
        p.utr_no is None ==> x.utr_no@ == "—"@,
        p.receipt_book_no matches Some(m) ==> x.receipt_book_no@ == m@,
        p.receipt_book_no is None ==> x.receipt_book_no@ == "—"@,
        p.remarks matches Some(m) ==> opt_view(x.remarks) == Some(m@),
        p.remarks is None ==> opt_view(x.remarks) == Some("—"@),
        k is Tuition ==> x.fee_type@ == fee_type,
        k is Library ==> x.fee_type@ == "library"@,
        k is Hostel ==> x.fee_type@ == "hostel"@,
        k is Transport ==> x.fee_type@ == "transport"@,
        !(k is Transport) ==> (p.room matches Some(m) ==> x.room@ == m@),
        k is Library && p.room is None ==> x.room@ == "Library Fine"@,
        (k is Tuition || k is Hostel) && p.room is None ==> x.room@ == "—"@,
        k is Transport ==> x.room@ == "—"@,
        k is Transport ==> (p.bus_route matches Some(m) ==> x.bus_route@ == m@),
        k is Transport ==> (p.bus_no matches Some(m) ==> x.bus_no@ == m@),
        k is Transport && p.bus_route is None ==> x.bus_route@ == "—"@,
        k is Transport && p.bus_no is None ==> x.bus_no@ == "—"@,
        k is Transport ==> (p.duration matches Some(d) ==> x.duration == Some(d)),
        k is Transport && p.duration is None ==> x.duration == Some(1i32),
        k is Transport ==> x.start_date == period_date_spec(opt_view(p.start_date)),
        k is Transport ==> x.end_date == period_date_spec(opt_view(p.end_date)),
        !(k is Transport) ==> {
            &&& x.bus_route@ == "—"@
            &&& x.bus_no@ == "—"@
            &&& x.duration is None
            &&& x.start_date is None
            &&& x.end_date is None
        },
{
}

/// An optional date field of an update is fine when absent or a date.
pub open spec fn date_field_ok(field: Option<Seq<char>>) -> bool {
    match field {
        Some(t) => date_read(t) is Some,
        None => true,
    }
}

/// A stored date after an optional replacement.
pub open spec fn date_after(old: CalDate, field: Option<Seq<char>>) -> CalDate {
    match field {
        Some(t) => match date_read(t) {
            Some(d) => d,
            None => old,
        },
        None => old,
    }
}

/// An optional text field after an optional replacement.
pub open spec fn opt_or_old(new: Option<String>, old: Option<String>) -> Option<Seq<char>> {
    match new {
        Some(t) => Some(t@),
        None => opt_view(old),
    }
}

/// Replaces the receipt and payment dates of a fee record where an update
/// gives them; a given date must read as a date (receipt date first).
pub fn apply_fee_dates(row: FeeRow, receipt_date: &Option<String>, payment_date: &Option<String>) -> (r:
    Result<FeeRow, AppError>)
    ensures
        !date_field_ok(opt_view(*receipt_date)) ==> (r matches Err(e) && e.is_bad_request(
            "Invalid receipt date format"@,
        )),
        date_field_ok(opt_view(*receipt_date)) && !date_field_ok(opt_view(*payment_date)) ==> (r matches Err(
            e,
        ) && e.is_bad_request("Invalid payment date format"@)),
        date_field_ok(opt_view(*receipt_date)) && date_field_ok(opt_view(*payment_date)) ==> r == Ok::<
            FeeRow,
            AppError,
        >(
            FeeRow {
                receipt_date: date_after(row.receipt_date, opt_view(*receipt_date)),
                payment_date: date_after(row.payment_date, opt_view(*payment_date)),
                ..row
            },
        ),
{
    let mut row = row;
    if let Some(t) = receipt_date {
        row.receipt_date = read_fee_date(t.as_str(), "Invalid receipt date format")?;
    }
    if let Some(t) = payment_date {
        row.payment_date = read_fee_date(t.as_str(), "Invalid payment date format")?;
    }
    Ok(row)
}

/// An update names a student that is not registered.
pub open spec fn student_blocks(u: UpdateFeeRecordPayload, registered: bool) -> bool {
    u.student_id is Some && !registered
}

/// An update gives a real receipt number (not the dash) that another
/// record already has.
pub open spec fn receipt_blocks(u: UpdateFeeRecordPayload, taken: bool) -> bool {
    u.receipt_no matches Some(r) && r@ != "—"@ && taken
}

/// The message of a receipt number that another record has.
pub open spec fn receipt_assigned_message() -> Seq<char> {
    "Receipt No. is already assigned to another record"@
}

/// The reference checks of a tuition or transport update: it is refused
/// as naming an unregistered student exactly when it names a student that
/// is not registered, and as reusing a receipt number exactly when it
/// gives a number other than the dash that another record has; an update
/// that names no student and gives no receipt number passes both.
pub proof fn law_update_refs(u: UpdateFeeRecordPayload, registered: bool, taken: bool)
    ensures
        student_blocks(u, registered) <==> (u.student_id is Some && !registered),
        u.student_id is None ==> !student_blocks(u, registered),
        registered ==> !student_blocks(u, registered),
        !taken ==> !receipt_blocks(u, taken),
        u.receipt_no is None ==> !receipt_blocks(u, taken),
        (u.receipt_no matches Some(r) && r@ == "—"@) ==> !receipt_blocks(u, taken),
        (u.receipt_no matches Some(r) && r@ != "—"@) && taken ==> receipt_blocks(u, taken),
{
}

/// The checks that tuition and transport updates share: a named student
/// must be registered, then a real receipt number must be free.
pub fn check_update_refs(u: &UpdateFeeRecordPayload, registered: bool, receipt_taken: bool) -> (r:
    Result<(), AppError>)
    ensures
        student_blocks(*u, registered) ==> (r matches Err(e) && e.is_not_found(
            unregistered_message(u.student_id->0@),
        )),
        !student_blocks(*u, registered) && receipt_blocks(*u, receipt_taken) ==> (r matches Err(e)
            && e.is_conflict(receipt_assigned_message())),
        !student_blocks(*u, registered) && !receipt_blocks(*u, receipt_taken) ==> r is Ok,
{
    if let Some(sid) = &u.student_id {
        require_registered(sid.as_str(), registered)?;
    }
    if let Some(rn) = &u.receipt_no {
        if !str_eq(rn.as_str(), "—") && receipt_taken {
            return Err(conflict("Receipt No. is already assigned to another record"));
        }
    }
    Ok(())
}

/// Whether a tuition update's fields, before its dates, are applied.
pub open spec fn tuition_fields_ok(old: FeeRow, u: UpdateFeeRecordPayload, x: FeeRow) -> bool {
    &&& x.student_id@ == or_old(u.student_id, old.student_id@)
    &&& x.receipt_no@ == or_old(u.receipt_no, old.receipt_no@)
    &&& x.fee_type@ == or_old(u.fee_type, old.fee_type@)
    &&& x.room@ == or_old(u.room, old.room@)
    &&& x.bus_route@ == "—"@
    &&& x.bus_no@ == "—"@
    &&& x.receipt_book_no@ == or_old(u.receipt_book_no, old.receipt_book_no@)
    &&& opt_view(x.remarks) == opt_or_old(u.remarks, old.remarks)
    &&& x.utr_no@ == or_old(u.utr_no, old.utr_no@)
    &&& x.payment_mode@ == or_old(u.payment_mode, old.payment_mode@)
    &&& x.receipt_date == old.receipt_date
    &&& x.payment_date == old.payment_date
    &&& x.duration == old.duration
    &&& x.start_date == old.start_date
    &&& x.end_date == old.end_date
}

/// Applies the text fields of a tuition update, once it is known whether a
/// named student is registered and whether a given receipt number is on
/// another record. A tuition record keeps no bus route or number.
pub fn tuition_update_fields(
    old: FeeRow,
    u: &UpdateFeeRecordPayload,
    registered: bool,
    receipt_taken: bool,
) -> (r: Result<FeeRow, AppError>)
    ensures
        student_blocks(*u, registered) ==> (r matches Err(e) && e.is_not_found(
            unregistered_message(u.student_id->0@),
        )),
        !student_blocks(*u, registered) && receipt_blocks(*u, receipt_taken) ==> (r matches Err(e)
            && e.is_conflict(receipt_assigned_message())),
        !student_blocks(*u, registered) && !receipt_blocks(*u, receipt_taken) ==> (r matches Ok(x)
            && tuition_fields_ok(old, *u, x)),
{
    check_update_refs(u, registered, receipt_taken)?;
    let mut x = old;
    if let Some(t) = &u.student_id {
        x.student_id = t.clone();
    }
    if let Some(t) = &u.receipt_no {
        x.receipt_no = t.clone();
    }
    if let Some(t) = &u.fee_type {
        x.fee_type = t.clone();
    }
    if let Some(t) = &u.room {
        x.room = t.clone();
    }
    if let Some(t) = &u.receipt_book_no {
        x.receipt_book_no = t.clone();
    }
    if let Some(t) = &u.remarks {
        x.remarks = Some(t.clone());
    }
    if let Some(t) = &u.utr_no {
        x.utr_no = t.clone();
    }
    if let Some(t) = &u.payment_mode {
        x.payment_mode = t.clone();
    }
    x.bus_route = String::from_str("—");
    x.bus_no = String::from_str("—");
    Ok(x)
}

/// Whether a tuition update is applied: its fields, then its dates.
pub open spec fn tuition_update_ok(old: FeeRow, u: UpdateFeeRecordPayload, x: FeeRow) -> bool {
    &&& tuition_fields_ok(
        old,
        u,
        FeeRow { receipt_date: old.receipt_date, payment_date: old.payment_date, ..x },
    )
    &&& x.receipt_date == date_after(old.receipt_date, opt_view(u.receipt_date))
    &&& x.payment_date == date_after(old.payment_date, opt_view(u.payment_date))
}

/// Repeating a tuition fee update changes nothing more.
pub proof fn law_tuition_update_idempotent(old: FeeRow, u: UpdateFeeRecordPayload, x: FeeRow, y: FeeRow)
    requires
        tuition_update_ok(old, u, x),
        tuition_update_ok(x, u, y),
    ensures
        y.student_id@ == x.student_id@,
        y.fee_type@ == x.fee_type@,
        y.room@ == x.room@,
        y.bus_route@ == x.bus_route@,
        y.bus_no@ == x.bus_no@,
        y.receipt_book_no@ == x.receipt_book_no@,
        y.receipt_no@ == x.receipt_no@,
        y.receipt_date == x.receipt_date,
        y.payment_date == x.payment_date,
        y.utr_no@ == x.utr_no@,
        y.payment_mode@ == x.payment_mode@,
        opt_view(y.remarks) == opt_view(x.remarks),
        y.duration == x.duration,
        y.start_date == x.start_date,
        y.end_date == x.end_date,
{
}

/// Each field that a tuition update gives replaces the stored one, and
/// each it leaves out stays as stored; dates and the transport period are
/// not touched by the fields, and a tuition record keeps no bus route or
/// number.
pub proof fn law_tuition_fields_replace_given(old: FeeRow, u: UpdateFeeRecordPayload, x: FeeRow)
    requires
        tuition_fields_ok(old, u, x),
    ensures
        u.student_id matches Some(t) ==> x.student_id@ == t@,
        u.student_id is None ==> x.student_id@ == old.student_id@,
        u.receipt_no matches Some(t) ==> x.receipt_no@ == t@,
        u.receipt_no is None ==> x.receipt_no@ == old.receipt_no@,
        u.fee_type matches Some(t) ==> x.fee_type@ == t@,
        u.fee_type is None ==> x.fee_type@ == old.fee_type@,
        u.room matches Some(t) ==> x.room@ == t@,
        u.room is None ==> x.room@ == old.room@,
        u.receipt_book_no matches Some(t) ==> x.receipt_book_no@ == t@,
        u.receipt_book_no is None ==> x.receipt_book_no@ == old.receipt_book_no@,
        u.remarks matches Some(t) ==> opt_view(x.remarks) == Some(t@),
        u.remarks is None ==> opt_view(x.remarks) == opt_view(old.remarks),
        u.utr_no matches Some(t) ==> x.utr_no@ == t@,
        u.utr_no is None ==> x.utr_no@ == old.utr_no@,
        u.payment_mode matches Some(t) ==> x.payment_mode@ == t@,
        u.payment_mode is None ==> x.payment_mode@ == old.payment_mode@,
        x.bus_route@ == "—"@,
        x.bus_no@ == "—"@,
        x.receipt_date == old.receipt_date,
        x.payment_date == old.payment_date,
        x.duration == old.duration,
        x.start_date == old.start_date,
        x.end_date == old.end_date,
{
}

/// A tuition update that is applied gives the record its fields as
/// [`law_tuition_fields_replace_given`] says, and a date that it gives
/// (and that reads as a date) in place of the stored one; a date it leaves
/// out stays.
pub proof fn law_tuition_update_replaces_given(old: FeeRow, u: UpdateFeeRecordPayload, x: FeeRow)
    requires
        tuition_update_ok(old, u, x),
    ensures
        u.student_id matches Some(t) ==> x.student_id@ == t@,
        u.student_id is None ==> x.student_id@ == old.student_id@,
        u.receipt_no matches Some(t) ==> x.receipt_no@ == t@,
        u.receipt_no is None ==> x.receipt_no@ == old.receipt_no@,
        u.fee_type matches Some(t) ==> x.fee_type@ == t@,
        u.fee_type is None ==> x.fee_type@ == old.fee_type@,
        u.room matches Some(t) ==> x.room@ == t@,
        u.room is None ==> x.room@ == old.room@,
        u.receipt_book_no matches Some(t) ==> x.receipt_book_no@ == t@,
        u.receipt_book_no is None ==> x.receipt_book_no@ == old.receipt_book_no@,
        u.remarks matches Some(t) ==> opt_view(x.remarks) == Some(t@),
        u.remarks is None ==> opt_view(x.remarks) == opt_view(old.remarks),
        u.utr_no matches Some(t) ==> x.utr_no@ == t@,
        u.utr_no is None ==> x.utr_no@ == old.utr_no@,
        u.payment_mode matches Some(t) ==> x.payment_mode@ == t@,
        u.payment_mode is None ==> x.payment_mode@ == old.payment_mode@,
        x.bus_route@ == "—"@,
        x.bus_no@ == "—"@,
        u.receipt_date matches Some(t) ==> (date_read(t@) is Some ==> date_read(t@) == Some(
            x.receipt_date,
        )),
        u.receipt_date is None ==> x.receipt_date == old.receipt_date,
        u.payment_date matches Some(t) ==> (date_read(t@) is Some ==> date_read(t@) == Some(
            x.payment_date,
        )),
        u.payment_date is None ==> x.payment_date == old.payment_date,
        x.duration == old.duration,
        x.start_date == old.start_date,
        x.end_date == old.end_date,
{
    law_tuition_fields_replace_given(
        old,
        u,
        FeeRow { receipt_date: old.receipt_date, payment_date: old.payment_date, ..x },
    );
}

/// A tuition update: its fields, then its dates.
pub fn tuition_update(old: FeeRow, u: &UpdateFeeRecordPayload, registered: bool, receipt_taken: bool) -> (r:
    Result<FeeRow, AppError>)
    ensures
        student_blocks(*u, registered) ==> (r matches Err(e) && e.is_not_found(
            unregistered_message(u.student_id->0@),
        )),
        !student_blocks(*u, registered) && receipt_blocks(*u, receipt_taken) ==> (r matches Err(e)
            && e.is_conflict(receipt_assigned_message())),
        !student_blocks(*u, registered) && !receipt_blocks(*u, receipt_taken) && !date_field_ok(
            opt_view(u.receipt_date),
        ) ==> (r matches Err(e) && e.is_bad_request("Invalid receipt date format"@)),
        !student_blocks(*u, registered) && !receipt_blocks(*u, receipt_taken) && date_field_ok(
            opt_view(u.receipt_date),
        ) && !date_field_ok(opt_view(u.payment_date)) ==> (r matches Err(e) && e.is_bad_request(
            "Invalid payment date format"@,
        )),
        !student_blocks(*u, registered) && !receipt_blocks(*u, receipt_taken) && date_field_ok(
            opt_view(u.receipt_date),
        ) && date_field_ok(opt_view(u.payment_date)) ==> (r matches Ok(x) && tuition_update_ok(old, *u, x)),
{
    let old_receipt = old.receipt_date;
    let old_payment = old.payment_date;
    let x = tuition_update_fields(old, u, registered, receipt_taken)?;
    let r = apply_fee_dates(x, &u.receipt_date, &u.payment_date);
    proof {
        if r is Ok {
            assert(old_receipt == old.receipt_date);
        }
    }
    r
}

/// A period date of a transport update is fine when absent, blank or a
/// date.
pub open spec fn period_field_ok(field: Option<Seq<char>>) -> bool {
    match field {
        Some(t) => trim_spec(t).len() == 0 || date_read(t) is Some,
        None => true,
    }
}

/// A period date after a transport update: a blank text clears it.
pub open spec fn period_after(old: Option<CalDate>, field: Option<Seq<char>>) -> Option<CalDate> {
    match field {
        Some(t) => if trim_spec(t).len() == 0 {
            None
        } else {
            date_read(t)
        },
        None => old,
    }
}

/// Reads a period date of a transport update.
fn update_period(old: Option<CalDate>, field: &Option<String>, msg: &str) -> (r: Result<
    Option<CalDate>,
    AppError,
>)
    ensures
        period_field_ok(opt_view(*field)) ==> r == Ok::<Option<CalDate>, AppError>(
            period_after(old, opt_view(*field)),
        ),
        !period_field_ok(opt_view(*field)) ==> (r matches Err(e) && e.is_bad_request(msg@)),
{
    match field {
        Some(t) => {
            if is_blank(t.as_str()) {
                Ok(None)
            } else {
                let d = read_fee_date(t.as_str(), msg)?;
                Ok(Some(d))
            }
        },
        None => Ok(old),
    }
}

/// Whether a transport update's fields, before its dates, are applied.
pub open spec fn transport_fields_ok(old: FeeRow, u: UpdateFeeRecordPayload, x: FeeRow) -> bool {
    &&& x.student_id@ == or_old(u.student_id, old.student_id@)
    &&& x.receipt_no@ == or_old(u.receipt_no, old.receipt_no@)
    &&& x.fee_type@ == "transport"@
    &&& x.room@ == "—"@
    &&& x.bus_route@ == or_old(u.bus_route, old.bus_route@)
    &&& x.bus_no@ == or_old(u.bus_no, old.bus_no@)
    &&& x.receipt_book_no@ == or_old(u.receipt_book_no, old.receipt_book_no@)
    &&& opt_view(x.remarks) == opt_or_old(u.remarks, old.remarks)
    &&& x.utr_no@ == or_old(u.utr_no, old.utr_no@)
    &&& x.payment_mode@ == or_old(u.payment_mode, old.payment_mode@)
    &&& x.receipt_date == old.receipt_date
    &&& x.payment_date == old.payment_date
    &&& x.duration == (match u.duration {
        Some(d) => Some(d),
        None => old.duration,
    })
    &&& x.start_date == period_after(old.start_date, opt_view(u.start_date))
    &&& x.end_date == period_after(old.end_date, opt_view(u.end_date))
}

/// Repeating the fields of a transport fee update changes nothing more;
/// a blank period date clears the date each time.
pub proof fn law_transport_update_idempotent(old: FeeRow, u: UpdateFeeRecordPayload, x: FeeRow, y: FeeRow)
    requires
        transport_fields_ok(old, u, x),
        transport_fields_ok(x, u, y),
    ensures
        y.student_id@ == x.student_id@,
        y.fee_type@ == x.fee_type@,
        y.room@ == x.room@,
        y.bus_route@ == x.bus_route@,
        y.bus_no@ == x.bus_no@,
        y.receipt_book_no@ == x.receipt_book_no@,
        y.receipt_no@ == x.receipt_no@,
        y.receipt_date == x.receipt_date,
        y.payment_date == x.payment_date,
        y.utr_no@ == x.utr_no@,
        y.payment_mode@ == x.payment_mode@,
        opt_view(y.remarks) == opt_view(x.remarks),
        y.duration == x.duration,
        y.start_date == x.start_date,
        y.end_date == x.end_date,
{
}

/// Each field that a transport update gives replaces the stored one, and
/// each it leaves out stays as stored; a blank period date clears the
/// date, any other given one is read. A transport record's type is
/// `transport` and it keeps no room.
pub proof fn law_transport_fields_replace_given(old: FeeRow, u: UpdateFeeRecordPayload, x: FeeRow)
    requires
        transport_fields_ok(old, u, x),
    ensures
        u.student_id matches Some(t) ==> x.student_id@ == t@,
        u.student_id is None ==> x.student_id@ == old.student_id@,
        u.receipt_no matches Some(t) ==> x.receipt_no@ == t@,
        u.receipt_no is None ==> x.receipt_no@ == old.receipt_no@,
        x.fee_type@ == "transport"@,
        x.room@ == "—"@,
        u.bus_route matches Some(t) ==> x.bus_route@ == t@,
        u.bus_route is None ==> x.bus_route@ == old.bus_route@,
        u.bus_no matches Some(t) ==> x.bus_no@ == t@,
        u.bus_no is None ==> x.bus_no@ == old.bus_no@,
        u.receipt_book_no matches Some(t) ==> x.receipt_book_no@ == t@,
        u.receipt_book_no is None ==> x.receipt_book_no@ == old.receipt_book_no@,
        u.remarks matches Some(t) ==> opt_view(x.remarks) == Some(t@),
        u.remarks is None ==> opt_view(x.remarks) == opt_view(old.remarks),
        u.utr_no matches Some(t) ==> x.utr_no@ == t@,
        u.utr_no is None ==> x.utr_no@ == old.utr_no@,
        u.payment_mode matches Some(t) ==> x.payment_mode@ == t@,
        u.payment_mode is None ==> x.payment_mode@ == old.payment_mode@,
        u.duration matches Some(d) ==> x.duration == Some(d),
        u.duration is None ==> x.duration == old.duration,
        u.start_date matches Some(t) ==> x.start_date == (if trim_spec(t@).len() == 0 {
            None
        } else {
            date_read(t@)
        }),
        u.start_date is None ==> x.start_date == old.start_date,
        u.end_date matches Some(t) ==> x.end_date == (if trim_spec(t@).len() == 0 {
            None
        } else {
            date_read(t@)
        }),
        u.end_date is None ==> x.end_date == old.end_date,
        x.receipt_date == old.receipt_date,
        x.payment_date == old.payment_date,
{
}

/// Applies the fields of a transport update, before the class and course
/// checks and the dates: a named student must be registered, a real
/// receipt number free, and period dates blank or dates (start first). A
/// transport record keeps no room and its type stays `transport`.
pub fn transport_update_fields(
    old: FeeRow,
    u: &UpdateFeeRecordPayload,
    registered: bool,
    receipt_taken: bool,
) -> (r: Result<FeeRow, AppError>)
    ensures
        student_blocks(*u, registered) ==> (r matches Err(e) && e.is_not_found(
            unregistered_message(u.student_id->0@),
        )),
        !student_blocks(*u, registered) && receipt_blocks(*u, receipt_taken) ==> (r matches Err(e)
            && e.is_conflict(receipt_assigned_message())),
        !student_blocks(*u, registered) && !receipt_blocks(*u, receipt_taken) && !period_field_ok(
            opt_view(u.start_date),
        ) ==> (r matches Err(e) && e.is_bad_request("Invalid start_date format"@)),
        !student_blocks(*u, registered) && !receipt_blocks(*u, receipt_taken) && period_field_ok(
            opt_view(u.start_date),
        ) && !period_field_ok(opt_view(u.end_date)) ==> (r matches Err(e) && e.is_bad_request(
            "Invalid end_date format"@,
        )),
        !student_blocks(*u, registered) && !receipt_blocks(*u, receipt_taken) && period_field_ok(
            opt_view(u.start_date),
        ) && period_field_ok(opt_view(u.end_date)) ==> (r matches Ok(x) && transport_fields_ok(
            old,
            *u,
            x,
        )),
{
    check_update_refs(u, registered, receipt_taken)?;
    let start_date = update_period(old.start_date, &u.start_date, "Invalid start_date format")?;
    let end_date = update_period(old.end_date, &u.end_date, "Invalid end_date format")?;
    let mut x = old;
    if let Some(t) = &u.student_id {
        x.student_id = t.clone();
    }
    if let Some(t) = &u.receipt_no {
        x.receipt_no = t.clone();
    }
    if let Some(t) = &u.bus_route {
        x.bus_route = t.clone();
    }
    if let Some(t) = &u.bus_no {
        x.bus_no = t.clone();
    }
    if let Some(t) = &u.receipt_book_no {
        x.receipt_book_no = t.clone();
    }
    if let Some(t) = &u.remarks {
        x.remarks = Some(t.clone());
    }
    if let Some(t) = &u.utr_no {
        x.utr_no = t.clone();
    }
    if let Some(t) = &u.payment_mode {
        x.payment_mode = t.clone();
    }
    if let Some(d) = u.duration {
        x.duration = Some(d);
    }
    x.start_date = start_date;
    x.end_date = end_date;
    x.fee_type = String::from_str("transport");
    x.room = String::from_str("—");
    Ok(x)
}

/// Whether a hostel update is applied: the given fields replace the stored
/// ones; receipt number, type, bus fields and period stay.
pub open spec fn hostel_update_ok(old: FeeRow, u: UpdateFeeRecordPayload, x: FeeRow) -> bool {
    &&& x.student_id@ == or_old(u.student_id, old.student_id@)
    &&& x.fee_type@ == old.fee_type@
    &&& x.room@ == or_old(u.room, old.room@)
    &&& x.bus_route@ == old.bus_route@
    &&& x.bus_no@ == old.bus_no@
    &&& x.receipt_book_no@ == or_old(u.receipt_book_no, old.receipt_book_no@)
    &&& x.receipt_no@ == old.receipt_no@
    &&& x.receipt_date == date_after(old.receipt_date, opt_view(u.receipt_date))
    &&& x.payment_date == date_after(old.payment_date, opt_view(u.payment_date))
    &&& x.utr_no@ == or_old(u.utr_no, old.utr_no@)
    &&& x.payment_mode@ == or_old(u.payment_mode, old.payment_mode@)
    &&& opt_view(x.remarks) == opt_or_old(u.remarks, old.remarks)
    &&& x.duration == old.duration
    &&& x.start_date == old.start_date
    &&& x.end_date == old.end_date
}

/// A hostel fee update: given dates must read as dates (receipt date
/// first); then the given fields replace the stored ones.
pub fn hostel_update(old: FeeRow, u: &UpdateFeeRecordPayload) -> (r: Result<FeeRow, AppError>)
    ensures
        !date_field_ok(opt_view(u.receipt_date)) ==> (r matches Err(e) && e.is_bad_request(
            "Invalid receipt date format"@,
        )),
        date_field_ok(opt_view(u.receipt_date)) && !date_field_ok(opt_view(u.payment_date)) ==> (r matches Err(
            e,
        ) && e.is_bad_request("Invalid payment date format"@)),
        date_field_ok(opt_view(u.receipt_date)) && date_field_ok(opt_view(u.payment_date)) ==> (r matches Ok(
            x,
        ) && hostel_update_ok(old, *u, x)),
{
    let mut x = apply_fee_dates(old, &u.receipt_date, &u.payment_date)?;
    if let Some(t) = &u.student_id {
        x.student_id = t.clone();
    }
    if let Some(t) = &u.room {
        x.room = t.clone();
    }
    if let Some(t) = &u.receipt_book_no {
        x.receipt_book_no = t.clone();
    }
    if let Some(t) = &u.utr_no {
        x.utr_no = t.clone();
    }
    if let Some(t) = &u.payment_mode {
        x.payment_mode = t.clone();
    }
    if let Some(t) = &u.remarks {
        x.remarks = Some(t.clone());
    }
    Ok(x)
}

/// Repeating a hostel fee update changes nothing more.
pub proof fn law_hostel_update_idempotent(old: FeeRow, u: UpdateFeeRecordPayload, x: FeeRow, y: FeeRow)
    requires
        hostel_update_ok(old, u, x),
        hostel_update_ok(x, u, y),
    ensures
        y.student_id@ == x.student_id@,
        y.fee_type@ == x.fee_type@,
        y.room@ == x.room@,
        y.bus_route@ == x.bus_route@,
        y.bus_no@ == x.bus_no@,
        y.receipt_book_no@ == x.receipt_book_no@,
        y.receipt_no@ == x.receipt_no@,
        y.receipt_date == x.receipt_date,
        y.payment_date == x.payment_date,
        y.utr_no@ == x.utr_no@,
        y.payment_mode@ == x.payment_mode@,
        opt_view(y.remarks) == opt_view(x.remarks),
        y.duration == x.duration,
        y.start_date == x.start_date,
        y.end_date == x.end_date,
{
}

/// Each field that a hostel fee update gives replaces the stored one (a
/// given date once it reads as a date), and each it leaves out stays;
/// the receipt number, type, bus fields and period are never changed.
pub proof fn law_hostel_update_replaces_given(old: FeeRow, u: UpdateFeeRecordPayload, x: FeeRow)
    requires
        hostel_update_ok(old, u, x),
    ensures
        u.student_id matches Some(t) ==> x.student_id@ == t@,
        u.student_id is None ==> x.student_id@ == old.student_id@,
        u.room matches Some(t) ==> x.room@ == t@,
        u.room is None ==> x.room@ == old.room@,
        u.receipt_book_no matches Some(t) ==> x.receipt_book_no@ == t@,
        u.receipt_book_no is None ==> x.receipt_book_no@ == old.receipt_book_no@,
        u.remarks matches Some(t) ==> opt_view(x.remarks) == Some(t@),
        u.remarks is None ==> opt_view(x.remarks) == opt_view(old.remarks),
        u.utr_no matches Some(t) ==> x.utr_no@ == t@,
        u.utr_no is None ==> x.utr_no@ == old.utr_no@,
        u.payment_mode matches Some(t) ==> x.payment_mode@ == t@,
        u.payment_mode is None ==> x.payment_mode@ == old.payment_mode@,
        u.receipt_date matches Some(t) ==> (date_read(t@) is Some ==> date_read(t@) == Some(
            x.receipt_date,
        )),
        u.receipt_date is None ==> x.receipt_date == old.receipt_date,
        u.payment_date matches Some(t) ==> (date_read(t@) is Some ==> date_read(t@) == Some(
            x.payment_date,
        )),
        u.payment_date is None ==> x.payment_date == old.payment_date,
        x.receipt_no@ == old.receipt_no@,
        x.fee_type@ == old.fee_type@,
        x.bus_route@ == old.bus_route@,
        x.bus_no@ == old.bus_no@,
        x.duration == old.duration,
        x.start_date == old.start_date,
        x.end_date == old.end_date,
{
}

/// A hostel fee update that gives none of the fields it applies leaves
/// the record as it was.
pub proof fn law_empty_hostel_update_keeps_record(old: FeeRow, u: UpdateFeeRecordPayload, x: FeeRow)
    requires
        u.student_id is None,
        u.room is None,
        u.receipt_book_no is None,
        u.receipt_date is None,
        u.payment_date is None,
        u.utr_no is None,
        u.payment_mode is None,
        u.remarks is None,
        hostel_update_ok(old, u, x),
    ensures
        x.student_id@ == old.student_id@,
        x.fee_type@ == old.fee_type@,
        x.room@ == old.room@,
        x.bus_route@ == old.bus_route@,
        x.bus_no@ == old.bus_no@,
        x.receipt_book_no@ == old.receipt_book_no@,
        x.receipt_no@ == old.receipt_no@,
        x.receipt_date == old.receipt_date,
        x.payment_date == old.payment_date,
        x.utr_no@ == old.utr_no@,
        x.payment_mode@ == old.payment_mode@,
        opt_view(x.remarks) == opt_view(old.remarks),
        x.duration == old.duration,
        x.start_date == old.start_date,
        x.end_date == old.end_date,
{
}

/// What a fee form changes on the student's own record: a name, class and
/// course, each only where given.
#[derive(Debug)]
pub struct StudentSync {
    pub student_id: String,
    pub name: Option<String>,
    pub class_name: Option<String>,
    pub course_name: Option<String>,
}

/// How hostel collections and updates bring the student record in line
/// with the form: a usable name replaces the stored one, and a class or
/// course label that counts is added to the master list and set.
pub fn student_sync(
    student_id: String,
    name: &Option<String>,
    class_name: &Option<String>,
    course_name: &Option<String>,
) -> (r: StudentSync)
    ensures
        r.student_id@ == student_id@,
        opt_view(r.name) == (match name {
            Some(n) => if usable_name_spec(n@) {
                Some(n@)
            } else {
                None
            },
            None => None,
        }),
        opt_view(r.class_name) == (match class_name {
            Some(c) => clean_label_spec(c@),
            None => None,
        }),
        opt_view(r.course_name) == (match course_name {
            Some(c) => clean_label_spec(c@),
            None => None,
        }),
{
    let name = match name {
        Some(n) => if usable_name(n.as_str()) {
            Some(n.clone())
        } else {
            None
        },
        None => None,
    };
    let class_name = match class_name {
        Some(c) => clean_label(c.as_str()),
        None => None,
    };
    let course_name = match course_name {
        Some(c) => clean_label(c.as_str()),
        None => None,
    };
    StudentSync { student_id, name, class_name, course_name }
}

/// The class and course on a student's record, where the record exists.
#[derive(Debug)]
pub struct CurrentLabels {
    pub class_name: Option<String>,
    pub course_name: Option<String>,
}

/// How a transport collection brings the student record in line with the
/// form, once the class and course labels have been looked up among the
/// master entries and the student's current labels read: the name counts
/// by the transport rule; a class or course that counts must be a master
/// entry (class first) and is only filled in where the student has none.
pub fn transport_sync(
    p: &AddFeeRecordPayload,
    class_official: Option<String>,
    course_official: Option<String>,
    current: &Option<CurrentLabels>,
) -> (r: Result<StudentSync, AppError>)
    ensures
        ({
            let cls = official_label_spec(opt_view(p.class_name), opt_view(class_official));
            let crs = official_label_spec(opt_view(p.course_name), opt_view(course_official));
            &&& cls is Err ==> (r matches Err(e) && e.is_bad_request(
                unknown_class_message(cls->Err_0),
            ))
            &&& cls is Ok && crs is Err ==> (r matches Err(e) && e.is_bad_request(
                unknown_course_message(crs->Err_0),
            ))
            &&& cls is Ok && crs is Ok ==> (r matches Ok(x) && {
                &&& x.student_id@ == p.student_id@
                &&& opt_view(x.name) == (match p.student_name {
                    Some(n) => if transport_name_spec(n@) {
                        Some(n@)
                    } else {
                        None
                    },
                    None => None,
                })
                &&& opt_view(x.class_name) == (match current {
                    Some(c) => fill_if_blank_spec(cls->Ok_0, opt_view(c.class_name)),
                    None => cls->Ok_0,
                })
                &&& opt_view(x.course_name) == (match current {
                    Some(c) => fill_if_blank_spec(crs->Ok_0, opt_view(c.course_name)),
                    None => crs->Ok_0,
                })
            })
        }),
{
    let class_val = official_label(&p.class_name, class_official, true)?;
    let course_val = official_label(&p.course_name, course_official, false)?;
    let (class_name, course_name) = match current {
        Some(c) => (fill_if_blank(class_val, &c.class_name), fill_if_blank(course_val, &c.course_name)),
        None => (class_val, course_val),
    };
    let name = match &p.student_name {
        Some(n) => if transport_name(n.as_str()) {
            Some(n.clone())
        } else {
            None
        },
        None => None,
    };
    Ok(StudentSync { student_id: p.student_id.clone(), name, class_name, course_name })
}

/// A class or course label after lookup, as a value: `Ok` with the label to
/// store (if any), or `Err` with the counted label that is no master entry.
pub open spec fn official_label_spec(label: Option<Seq<char>>, official: Option<Seq<char>>) -> Result<
    Option<Seq<char>>,
    Seq<char>,
> {
    match label {
        None => Ok(None),
        Some(l) => match clean_label_spec(l) {
            None => Ok(None),
            Some(c) => match official {
                Some(o) => Ok(Some(o)),
                None => Err(c),
            },
        },
    }
}

/// Where a change to a fee record (an edit or a removal) is carried out.
#[derive(Debug)]
pub enum FeeChangeRoute {
    /// The id is a library book issue: its fine is settled or cleared.
    LibraryFine,
    Transport,
    Hostel,
    Tuition,
}

/// The route of a change by stored fee type: transport and hostel records
/// have their own; every other type goes the tuition way.
pub open spec fn stored_route(t: Seq<char>) -> FeeChangeRoute {
    if t == "transport"@ {
        FeeChangeRoute::Transport
    } else if t == "hostel"@ {
        FeeChangeRoute::Hostel
    } else {
        FeeChangeRoute::Tuition
    }
}

/// Where an edit or removal of a fee record goes, given whether the id is
/// a book issue and the stored fee type of the id (if a fee record has it).
pub fn fee_change_route(book_issue: bool, stored_fee_type: &Option<String>) -> (r: Result<
    FeeChangeRoute,
    AppError,
>)
    ensures
        book_issue ==> r == Ok::<FeeChangeRoute, AppError>(FeeChangeRoute::LibraryFine),
        !book_issue && stored_fee_type is None ==> (r matches Err(e) && e.is_not_found(
            "Fee record not found"@,
        )),
        !book_issue && stored_fee_type is Some ==> r == Ok::<FeeChangeRoute, AppError>(
            stored_route(stored_fee_type->0@),
        ),
{
    if book_issue {
        return Ok(FeeChangeRoute::LibraryFine);
    }
    match stored_fee_type {
        None => Err(not_found("Fee record not found")),
        Some(t) => {
            let t = t.as_str();
            if str_eq(t, "transport") {
                Ok(FeeChangeRoute::Transport)
            } else if str_eq(t, "hostel") {
                Ok(FeeChangeRoute::Hostel)
            } else {
                Ok(FeeChangeRoute::Tuition)
            }
        },
    }
}

/// What a removal does when no fee record was deleted.
#[derive(Debug)]
pub enum MissingDelete {
    /// The removal is refused with this error.
    Refuse(AppError),
    /// The store's own "no row" failure is passed on (the transport path
    /// expects a row).
    StoreNoRow,
}

/// How a fee record is removed along a route: whether only a hostel
/// record may go, and what follows when nothing was deleted.
#[derive(Debug)]
pub struct FeeDeletion {
    pub hostel_only: bool,
    pub when_missing: MissingDelete,
}

/// The removal along a route (other than a library fine, which is cleared
/// on its issue instead): the hostel route deletes only hostel records and
/// reports `Hostel fee record not found`; the transport route passes on the
/// store's failure; the tuition route reports `Fee record not found`.
pub fn fee_deletion(route: &FeeChangeRoute) -> (r: FeeDeletion)
    ensures
        r.hostel_only == (route is Hostel),
        route is Hostel ==> (r.when_missing matches MissingDelete::Refuse(e) && e.is_not_found(
            "Hostel fee record not found"@,
        )),
        route is Transport ==> r.when_missing is StoreNoRow,
        (route is Tuition || route is LibraryFine) ==> (r.when_missing matches MissingDelete::Refuse(e)
            && e.is_not_found("Fee record not found"@)),
{
    match route {
        FeeChangeRoute::Hostel => FeeDeletion {
            hostel_only: true,
            when_missing: MissingDelete::Refuse(not_found("Hostel fee record not found")),
        },
        FeeChangeRoute::Transport => FeeDeletion { hostel_only: false, when_missing: MissingDelete::StoreNoRow },
        _ => FeeDeletion {
            hostel_only: false,
            when_missing: MissingDelete::Refuse(not_found("Fee record not found")),
        },
    }
}

/// Whether removing a fee record of this type reopens library fines.
pub fn reopens_fines(fee_type: &str) -> (b: bool)
    ensures
        b == (fee_type@ == "library"@),
{
    str_eq(fee_type, "library")
}

/// The record that a fee update addresses.
#[derive(Debug)]
pub enum UpdateTarget {
    /// The id itself; the route follows the stored fee type.
    ById(String),
    /// A fee type with the id taken from the request.
    Typed(FeeChangeRoute, String),
}

/// Reads the first argument of a fee update: a UUID is the record's id;
/// anything else is a fee type, and the request must then carry the id.
pub fn update_target(id_or_type: &str, payload_id: &Option<String>) -> (r: Result<UpdateTarget, AppError>)
    ensures
        uuid_parses(id_or_type@) ==> (r matches Ok(UpdateTarget::ById(id)) && id@ == id_or_type@),
        !uuid_parses(id_or_type@) && payload_id is None ==> (r matches Err(e) && e.is_bad_request(
            "ID is required"@,
        )),
        !uuid_parses(id_or_type@) && payload_id is Some ==> (r matches Ok(
            UpdateTarget::Typed(route, id),
        ) && route == stored_route(id_or_type@) && id@ == payload_id->0@),
{
    if is_uuid(id_or_type) {
        return Ok(UpdateTarget::ById(String::from_str(id_or_type)));
    }
    let route = if str_eq(id_or_type, "transport") {
        FeeChangeRoute::Transport
    } else if str_eq(id_or_type, "hostel") {
        FeeChangeRoute::Hostel
    } else {
        FeeChangeRoute::Tuition
    };
    match payload_id {
        Some(id) => Ok(UpdateTarget::Typed(route, id.clone())),
        None => Err(bad_request("ID is required")),
    }
}

/// What settling a library fine through a fee edit does: marks the book
/// issue's fine paid or not, sets its remarks, and logs a library fee.
#[derive(Debug)]
pub struct FinePayment {
    pub fine_paid: bool,
    pub issue_remarks: String,
    pub row: FeeRow,
}

/// A date of a fine payment: the given text when it reads as a date, else
/// today.
pub open spec fn date_or_today(field: Option<Seq<char>>, today: CalDate) -> CalDate {
    match field {
        Some(t) => match date_read(t) {
            Some(d) => d,
            None => today,
        },
        None => today,
    }
}

/// Reads a date of a fine payment.
fn read_date_or(field: &Option<String>, today: CalDate) -> (r: CalDate)
    ensures
        r == date_or_today(opt_view(*field), today),
{
    match field {
        Some(t) => match parse_ymd(t.as_str()) {
            Some(d) => d,
            None => today,
        },
        None => today,
    }
}

/// Whether a fine payment is what settling a library fine gives for this
/// edit, registered id, date and stamp.
pub open spec fn fine_payment_ok(
    u: UpdateFeeRecordPayload,
    registered_id: Option<Seq<char>>,
    today: CalDate,
    stamp: int,
    x: FinePayment,
) -> bool {
    let mode = text_or(u.payment_mode, "Cash"@);
    &&& x.fine_paid == ((u.due_fees is None || u.due_fees == Some(AmountSign::Zero)) || mode
        == "Waived"@)
    &&& x.issue_remarks@ == (if mode == "Waived"@ {
        "Waived"@
    } else {
        text_or(u.remarks, "Paid"@)
    })
    &&& x.row.student_id@ == (match registered_id {
        Some(s) => s,
        None => text_or(u.student_id, ""@),
    })
    &&& x.row.fee_type@ == "library"@
    &&& x.row.room@ == text_or(u.room, "Library Fine"@)
    &&& x.row.bus_route@ == "—"@
    &&& x.row.bus_no@ == "—"@
    &&& x.row.receipt_book_no@ == text_or(u.receipt_book_no, "—"@)
    &&& x.row.receipt_no@ == (match u.receipt_no {
        Some(n) => n@,
        None => "LIB-"@ + dec_int_spec(stamp),
    })
    &&& x.row.receipt_date == date_or_today(opt_view(u.receipt_date), today)
    &&& x.row.payment_date == date_or_today(opt_view(u.payment_date), today)
    &&& x.row.utr_no@ == text_or(u.utr_no, "—"@)
    &&& x.row.payment_mode@ == mode
    &&& opt_view(x.row.remarks) == Some(text_or(u.remarks, "—"@))
    &&& x.row.duration is None
    &&& x.row.start_date is None
    &&& x.row.end_date is None
}

/// Settles a library fine from a fee edit: the mode defaults to `Cash`;
/// the fine counts as paid when no due amount (or zero) remains or it is
/// waived; a waiver's remarks are `Waived`, others the given remarks or
/// `Paid`; the fee is logged for the registered spelling of the student id
/// (`registered_id`) when there is one, with dates that do not read as
/// dates replaced by today, and a receipt number `LIB-<stamp>` when none is
/// given.
pub fn fine_payment(u: &UpdateFeeRecordPayload, registered_id: Option<String>, today: CalDate, stamp: i64) -> (r:
    FinePayment)
    ensures
        fine_payment_ok(*u, opt_view(registered_id), today, stamp as int, r),
{
    let no_due = match u.due_fees {
        None | Some(AmountSign::Zero) => true,
        _ => false,
    };
    let settled = fine_settlement(&u.payment_mode, no_due, &u.remarks);
    let mode = text_or_default(&u.payment_mode, "Cash");
    let student_id = match registered_id {
        Some(s) => s,
        None => text_or_default(&u.student_id, ""),
    };
    let receipt_no = match &u.receipt_no {
        Some(n) => n.clone(),
        None => {
            let mut m = String::from_str("LIB-");
            let d = dec_i64(stamp);
            m.append(d.as_str());
            m
        },
    };
    let row = FeeRow {
        student_id,
        fee_type: String::from_str("library"),
        room: text_or_default(&u.room, "Library Fine"),
        bus_route: String::from_str("—"),
        bus_no: String::from_str("—"),
        receipt_book_no: text_or_default(&u.receipt_book_no, "—"),
        receipt_no,
        receipt_date: read_date_or(&u.receipt_date, today),
        payment_date: read_date_or(&u.payment_date, today),
        utr_no: text_or_default(&u.utr_no, "—"),
        payment_mode: mode,
        remarks: Some(text_or_default(&u.remarks, "—")),
        duration: None,
        start_date: None,
        end_date: None,
    };
    FinePayment { fine_paid: settled.fine_paid, issue_remarks: settled.issue_remarks, row }
}

/// Settling a library fine marks it paid exactly when nothing stays due
/// (no due amount, or zero) or it is waived, whatever else the mode is; a
/// waiver's issue remarks are `Waived`, others the given remarks or `Paid`.
/// The library fee logged beside it carries the given payment mode (`Cash`
/// when none is given), the registered spelling of the student id, and
/// each given text in place of its default.
pub proof fn law_fine_payment_settles(
    u: UpdateFeeRecordPayload,
    registered_id: Option<Seq<char>>,
    today: CalDate,
    stamp: int,
    x: FinePayment,
)
    requires
        fine_payment_ok(u, registered_id, today, stamp, x),
    ensures
        u.due_fees is None ==> x.fine_paid,
        u.due_fees == Some(AmountSign::Zero) ==> x.fine_paid,
        (u.payment_mode matches Some(m) && m@ == "Waived"@) ==> x.fine_paid && x.issue_remarks@
            == "Waived"@,
        u.due_fees is Some && u.due_fees != Some(AmountSign::Zero) && (u.payment_mode is None
            || u.payment_mode->0@ != "Waived"@) ==> !x.fine_paid,
        (u.payment_mode is None || u.payment_mode->0@ != "Waived"@) ==> (u.remarks matches Some(
            t,
        ) ==> x.issue_remarks@ == t@),
        (u.payment_mode is None || u.payment_mode->0@ != "Waived"@) && u.remarks is None
            ==> x.issue_remarks@ == "Paid"@,
        u.payment_mode matches Some(m) ==> x.row.payment_mode@ == m@,
        u.payment_mode is None ==> x.row.payment_mode@ == "Cash"@,
        registered_id matches Some(s) ==> x.row.student_id@ == s,
        registered_id is None ==> (u.student_id matches Some(t) ==> x.row.student_id@ == t@),
        registered_id is None && u.student_id is None ==> x.row.student_id@ == ""@,
        x.row.fee_type@ == "library"@,
        u.room matches Some(t) ==> x.row.room@ == t@,
        u.room is None ==> x.row.room@ == "Library Fine"@,
        u.receipt_no matches Some(t) ==> x.row.receipt_no@ == t@,
        u.receipt_no is None ==> x.row.receipt_no@ == "LIB-"@ + dec_int_spec(stamp),
        u.receipt_book_no matches Some(t) ==> x.row.receipt_book_no@ == t@,
        u.receipt_book_no is None ==> x.row.receipt_book_no@ == "—"@,
        u.utr_no matches Some(t) ==> x.row.utr_no@ == t@,
        u.utr_no is None ==> x.row.utr_no@ == "—"@,
        u.remarks matches Some(t) ==> opt_view(x.row.remarks) == Some(t@),
        u.remarks is None ==> opt_view(x.row.remarks) == Some("—"@),
        u.receipt_date matches Some(t) ==> (date_read(t@) is Some ==> date_read(t@) == Some(
            x.row.receipt_date,
        )),
        !(u.receipt_date matches Some(t) && date_read(t@) is Some) ==> x.row.receipt_date == today,
        u.payment_date matches Some(t) ==> (date_read(t@) is Some ==> date_read(t@) == Some(
            x.row.payment_date,
        )),
        !(u.payment_date matches Some(t) && date_read(t@) is Some) ==> x.row.payment_date == today,
        x.row.bus_route@ == "—"@,
        x.row.bus_no@ == "—"@,
        x.row.duration is None,
        x.row.start_date is None,
        x.row.end_date is None,
{
    reveal_strlit("Cash");
    reveal_strlit("Waived");
    assert("Cash"@.len() != "Waived"@.len());
}

/// Settles a library fine now: today's date and the current second stamp
/// the payment.
pub fn fine_payment_now(u: &UpdateFeeRecordPayload, registered_id: Option<String>) -> (r: FinePayment)
    ensures
        exists|today: CalDate, stamp: i64| fine_payment_ok(*u, opt_view(registered_id), today, stamp as int, r),
{
    let d = crate::dates::today();
    let stamp = now_seconds();
    fine_payment(u, registered_id, d, stamp)
}

/// The stored fields of a general expense, apart from its amount; the
/// optional ones may be stored empty (`NULL`).
#[derive(Debug)]
pub struct ExpenseRow {
    pub ref_no: String,
    pub description: String,
    pub category: Option<String>,
    pub date: CalDate,
    pub payment_mode: String,
    pub remarks: Option<String>,
    pub utr: Option<String>,
    pub receipt: Option<String>,
    pub party_name: Option<String>,
    pub spent_by: Option<String>,
    pub voucher_no: Option<String>,
}

/// The voucher number of a new expense: the given one, or `EXP-` and a
/// drawn number.
pub open spec fn voucher_spec(given: Option<String>, draw: nat) -> Seq<char> {
    match given {
        Some(v) => v@,
        None => "EXP-"@ + dec_spec(draw),
    }
}

/// Whether an expense row is what recording the request gives for this
/// date and drawn number: the voucher number is also the reference; a date
/// that does not read as a date is replaced by today; the mode defaults to
/// `Online` and the other texts to `—`.
pub open spec fn expense_entry_ok(p: AddExpensePayload, today: CalDate, draw: nat, x: ExpenseRow) -> bool {
    &&& x.ref_no@ == voucher_spec(p.voucher_no, draw)
    &&& x.voucher_no matches Some(v) && v@ == voucher_spec(p.voucher_no, draw)
    &&& x.description@ == p.description@
    &&& opt_view(x.category) == opt_view(p.category)
    &&& x.date == date_or_today(opt_view(p.date), today)
    &&& x.payment_mode@ == text_or(p.payment_mode, "Online"@)
    &&& opt_view(x.remarks) == Some(text_or(p.remarks, "—"@))
    &&& opt_view(x.utr) == Some(text_or(p.utr, "—"@))
    &&& opt_view(x.receipt) == Some(text_or(p.receipt, "—"@))
    &&& opt_view(x.party_name) == Some(text_or(p.party_name, "—"@))
    &&& opt_view(x.spent_by) == Some(text_or(p.spent_by, "—"@))
}

/// A recorded expense holds what the request gives: the given voucher
/// number, also as the reference (`EXP-` and the drawn number when none is
/// given), the description and category, a given date that reads as a
/// date (else today), the given payment mode (`Online` when none), and
/// each other given text (the dash when none).
pub proof fn law_expense_entry_keeps_request(p: AddExpensePayload, today: CalDate, draw: nat, x: ExpenseRow)
    requires
        expense_entry_ok(p, today, draw, x),
    ensures
        p.voucher_no matches Some(v) ==> x.ref_no@ == v@ && opt_view(x.voucher_no) == Some(v@),
        p.voucher_no is None ==> x.ref_no@ == "EXP-"@ + dec_spec(draw) && opt_view(x.voucher_no)
            == Some("EXP-"@ + dec_spec(draw)),
        x.description@ == p.description@,
        opt_view(x.category) == opt_view(p.category),
        p.date matches Some(t) ==> (date_read(t@) is Some ==> date_read(t@) == Some(x.date)),
        !(p.date matches Some(t) && date_read(t@) is Some) ==> x.date == today,
        p.payment_mode matches Some(m) ==> x.payment_mode@ == m@,
        p.payment_mode is None ==> x.payment_mode@ == "Online"@,
        p.remarks matches Some(t) ==> opt_view(x.remarks) == Some(t@),
        p.remarks is None ==> opt_view(x.remarks) == Some("—"@),
        p.utr matches Some(t) ==> opt_view(x.utr) == Some(t@),
        p.utr is None ==> opt_view(x.utr) == Some("—"@),
        p.receipt matches Some(t) ==> opt_view(x.receipt) == Some(t@),
        p.receipt is None ==> opt_view(x.receipt) == Some("—"@),
        p.party_name matches Some(t) ==> opt_view(x.party_name) == Some(t@),
        p.party_name is None ==> opt_view(x.party_name) == Some("—"@),
        p.spent_by matches Some(t) ==> opt_view(x.spent_by) == Some(t@),
        p.spent_by is None ==> opt_view(x.spent_by) == Some("—"@),
{
}

/// The expense that recording a request stores, for a given date and
/// drawn voucher number.
pub fn expense_entry(p: &AddExpensePayload, today: CalDate, draw: u32) -> (r: ExpenseRow)
    ensures
        expense_entry_ok(*p, today, draw as nat, r),
{
    let voucher = match &p.voucher_no {
        Some(v) => v.clone(),
        None => {
            let mut m = String::from_str("EXP-");
            let d = dec_u64(draw as u64);
            m.append(d.as_str());
            m
        },
    };
    ExpenseRow {
        ref_no: voucher.clone(),
        description: p.description.clone(),
        category: p.category.clone(),
        date: read_date_or(&p.date, today),
        payment_mode: text_or_default(&p.payment_mode, "Online"),
        remarks: Some(text_or_default(&p.remarks, "—")),
        utr: Some(text_or_default(&p.utr, "—")),
        receipt: Some(text_or_default(&p.receipt, "—")),
        party_name: Some(text_or_default(&p.party_name, "—")),
        spent_by: Some(text_or_default(&p.spent_by, "—")),
        voucher_no: Some(voucher),
    }
}

/// A random voucher number in `1000..10000`
/// (`rand::random_range(1000..10000)`, whose documentation promises a value
/// in the range); which value comes out is left open.
#[verifier::external_body]
fn voucher_draw() -> (n: u32)
    ensures
        1000 <= n < 10000,
{
    rand::random_range(1000u32..10000u32)
}

/// Records an expense request now: today's date and a random number from
/// 1000 to 9999 stand in for what the request leaves out.
pub fn new_expense_entry(p: &AddExpensePayload) -> (r: ExpenseRow)
    ensures
        exists|today: CalDate, draw: nat| 1000 <= draw < 10000 && expense_entry_ok(*p, today, draw, r),
{
    let d = crate::dates::today();
    let n = voucher_draw();
    expense_entry(p, d, n)
}

/// The hyphenated text of a new random UUID
/// (`uuid::Uuid::new_v4().to_string()`); only its length, 36 characters as
/// the crate's `Hyphenated::LENGTH` documents, is stated.
#[verifier::external_body]
fn new_uuid_text() -> (t: String)
    ensures
        t@.len() == 36,
{
    uuid::Uuid::new_v4().to_string()
}

/// The reference of an expense built from a UUID text: `EXP-` and its
/// first eight characters in upper case.
pub open spec fn ref_no_spec(uuid_text: Seq<char>) -> Seq<char> {
    "EXP-"@ + uppercase_of(uuid_text.subrange(0, 8))
}

/// The reference of an expense built from a UUID text.
pub fn ref_no_from(uuid_text: &str) -> (r: String)
    requires
        uuid_text@.len() >= 8,
    ensures
        r@ == ref_no_spec(uuid_text@),
{
    let head = uuid_text.substring_char(0, 8);
    let up = to_upper(head);
    let mut r = String::from_str("EXP-");
    r.append(up.as_str());
    r
}

/// A fresh expense reference from a new random UUID.
pub fn fresh_ref_no() -> (r: String)
    ensures
        exists|t: Seq<char>| t.len() == 36 && r@ == ref_no_spec(t),
{
    let t = new_uuid_text();
    ref_no_from(t.as_str())
}

/// Whether an expense row is what the expense service stores for a valid
/// request, a reference and today: the description is trimmed, the category
/// defaults to `general`, the mode to `Online`, a missing or empty date is
/// today, and the other texts are stored as given.
pub open spec fn service_entry_ok(p: AddExpensePayload, ref_no: Seq<char>, today: CalDate, x: ExpenseRow) -> bool {
    &&& x.ref_no@ == ref_no
    &&& x.description@ == trim_spec(p.description@)
    &&& opt_view(x.category) == Some(text_or(p.category, "general"@))
    &&& x.date == (match p.date {
        Some(t) => if t@.len() == 0 {
            today
        } else {
            date_after(today, Some(t@))
        },
        None => today,
    })
    &&& x.payment_mode@ == text_or(p.payment_mode, "Online"@)
    &&& opt_view(x.remarks) == opt_view(p.remarks)
    &&& opt_view(x.utr) == opt_view(p.utr)
    &&& opt_view(x.receipt) == opt_view(p.receipt)
    &&& opt_view(x.party_name) == opt_view(p.party_name)
    &&& opt_view(x.spent_by) == opt_view(p.spent_by)
    &&& opt_view(x.voucher_no) == opt_view(p.voucher_no)
}

/// The expense service stores what the request gives: the reference it
/// was handed, the trimmed description, the given category (`general` when
/// none), a non-empty given date as read (today when absent or empty), the
/// given payment mode (`Online` when none), and the other texts as given.
pub proof fn law_service_entry_keeps_request(p: AddExpensePayload, ref_no: Seq<char>, today: CalDate, x: ExpenseRow)
    requires
        service_entry_ok(p, ref_no, today, x),
    ensures
        x.ref_no@ == ref_no,
        x.description@ == trim_spec(p.description@),
        p.category matches Some(t) ==> opt_view(x.category) == Some(t@),
        p.category is None ==> opt_view(x.category) == Some("general"@),
        p.date matches Some(t) ==> (t@.len() != 0 && date_read(t@) is Some ==> date_read(t@)
            == Some(x.date)),
        p.date matches Some(t) ==> (t@.len() == 0 ==> x.date == today),
        p.date is None ==> x.date == today,
        p.payment_mode matches Some(m) ==> x.payment_mode@ == m@,
        p.payment_mode is None ==> x.payment_mode@ == "Online"@,
        opt_view(x.remarks) == opt_view(p.remarks),
        opt_view(x.utr) == opt_view(p.utr),
        opt_view(x.receipt) == opt_view(p.receipt),
        opt_view(x.party_name) == opt_view(p.party_name),
        opt_view(x.spent_by) == opt_view(p.spent_by),
        opt_view(x.voucher_no) == opt_view(p.voucher_no),
{
}

/// The expense service's recording of a request: the request is validated
/// first; then the row is built from it, the reference and today.
pub fn service_expense_entry(p: &AddExpensePayload, ref_no: String, today: CalDate) -> (r: Result<
    ExpenseRow,
    AppError,
>)
    ensures
        add_expense_problem(*p) matches Some(m) ==> (r matches Err(e) && e.is_bad_request(m)),
        add_expense_problem(*p) is None ==> (r matches Ok(x) && service_entry_ok(*p, ref_no@, today, x)),
{
    p.validate()?;
    let date = match &p.date {
        Some(t) => if t.as_str().unicode_len() == 0 {
            today
        } else {
            read_fee_date(t.as_str(), "Invalid date format")?
        },
        None => today,
    };
    Ok(ExpenseRow {
        ref_no,
        description: String::from_str(trim(p.description.as_str())),
        category: Some(text_or_default(&p.category, "general")),
        date,
        payment_mode: text_or_default(&p.payment_mode, "Online"),
        remarks: p.remarks.clone(),
        utr: p.utr.clone(),
        receipt: p.receipt.clone(),
        party_name: p.party_name.clone(),
        spent_by: p.spent_by.clone(),
        voucher_no: p.voucher_no.clone(),
    })
}

/// The expense service's recording of a request now: a fresh reference
/// from a new random UUID, and today's date for a request without one.
pub fn service_expense_entry_now(p: &AddExpensePayload) -> (r: Result<ExpenseRow, AppError>)
    ensures
        add_expense_problem(*p) matches Some(m) ==> (r matches Err(e) && e.is_bad_request(m)),
        add_expense_problem(*p) is None ==> (r matches Ok(x) && exists|t: Seq<char>, today: CalDate|
            t.len() == 36 && service_entry_ok(*p, ref_no_spec(t), today, x)),
{
    let ref_no = fresh_ref_no();
    let d = crate::dates::today();
    service_expense_entry(p, ref_no, d)
}

/// Whether an expense row is the stored one with an update's given fields
/// put in; `date` is the stored date afterwards.
pub open spec fn expense_merged(old: ExpenseRow, u: UpdateExpensePayload, date: CalDate, x: ExpenseRow) -> bool {
    &&& x.ref_no@ == old.ref_no@
    &&& x.description@ == or_old(u.description, old.description@)
    &&& opt_view(x.category) == opt_or_old(u.category, old.category)
    &&& x.date == date
    &&& x.payment_mode@ == or_old(u.payment_mode, old.payment_mode@)
    &&& opt_view(x.remarks) == opt_or_old(u.remarks, old.remarks)
    &&& opt_view(x.utr) == opt_or_old(u.utr, old.utr)
    &&& opt_view(x.receipt) == opt_or_old(u.receipt, old.receipt)
    &&& opt_view(x.party_name) == opt_or_old(u.party_name, old.party_name)
    &&& opt_view(x.spent_by) == opt_or_old(u.spent_by, old.spent_by)
    &&& opt_view(x.voucher_no) == opt_or_old(u.voucher_no, old.voucher_no)
}

/// Puts an update's given text fields into a stored expense.
fn merge_expense_texts(old: ExpenseRow, u: &UpdateExpensePayload) -> (r: ExpenseRow)
    ensures
        expense_merged(old, *u, old.date, r),
{
    let mut x = old;
    if let Some(t) = &u.description {
        x.description = t.clone();
    }
    if let Some(t) = &u.category {
        x.category = Some(t.clone());
    }
    if let Some(t) = &u.payment_mode {
        x.payment_mode = t.clone();
    }
    if let Some(t) = &u.remarks {
        x.remarks = Some(t.clone());
    }
    if let Some(t) = &u.utr {
        x.utr = Some(t.clone());
    }
    if let Some(t) = &u.receipt {
        x.receipt = Some(t.clone());
    }
    if let Some(t) = &u.party_name {
        x.party_name = Some(t.clone());
    }
    if let Some(t) = &u.spent_by {
        x.spent_by = Some(t.clone());
    }
    if let Some(t) = &u.voucher_no {
        x.voucher_no = Some(t.clone());
    }
    x
}

/// The expense edit of the finance screens: the given fields replace the
/// stored ones, and a given date, which must read as a date, replaces the
/// stored date.
pub fn expense_edit(old: ExpenseRow, u: &UpdateExpensePayload) -> (r: ExpenseRow)
    requires
        u.date matches Some(t) ==> date_read(t@) is Some,
    ensures
        expense_merged(old, *u, date_after(old.date, opt_view(u.date)), r),
{
    expense_update(old, u)
}

/// The expense service's update: the given fields replace the stored ones;
/// a given date replaces the stored one only when it reads as a date.
pub fn expense_update(old: ExpenseRow, u: &UpdateExpensePayload) -> (r: ExpenseRow)
    ensures
        expense_merged(old, *u, date_after(old.date, opt_view(u.date)), r),
{
    let mut x = merge_expense_texts(old, u);
    if let Some(t) = &u.date {
        if let Some(d) = parse_ymd(t.as_str()) {
            x.date = d;
        }
    }
    x
}

/// Each field that an expense update gives replaces the stored one (a
/// date only when it reads as a date), each it leaves out stays, and the
/// reference never changes.
pub proof fn law_expense_update_replaces_given(old: ExpenseRow, u: UpdateExpensePayload, x: ExpenseRow)
    requires
        expense_merged(old, u, date_after(old.date, opt_view(u.date)), x),
    ensures
        x.ref_no@ == old.ref_no@,
        u.description matches Some(t) ==> x.description@ == t@,
        u.description is None ==> x.description@ == old.description@,
        u.category matches Some(t) ==> opt_view(x.category) == Some(t@),
        u.category is None ==> opt_view(x.category) == opt_view(old.category),
        u.date matches Some(t) ==> (date_read(t@) is Some ==> date_read(t@) == Some(x.date)),
        !(u.date matches Some(t) && date_read(t@) is Some) ==> x.date == old.date,
        u.payment_mode matches Some(t) ==> x.payment_mode@ == t@,
        u.payment_mode is None ==> x.payment_mode@ == old.payment_mode@,
        u.remarks matches Some(t) ==> opt_view(x.remarks) == Some(t@),
        u.remarks is None ==> opt_view(x.remarks) == opt_view(old.remarks),
        u.utr matches Some(t) ==> opt_view(x.utr) == Some(t@),
        u.utr is None ==> opt_view(x.utr) == opt_view(old.utr),
        u.receipt matches Some(t) ==> opt_view(x.receipt) == Some(t@),
        u.receipt is None ==> opt_view(x.receipt) == opt_view(old.receipt),
        u.party_name matches Some(t) ==> opt_view(x.party_name) == Some(t@),
        u.party_name is None ==> opt_view(x.party_name) == opt_view(old.party_name),
        u.spent_by matches Some(t) ==> opt_view(x.spent_by) == Some(t@),
        u.spent_by is None ==> opt_view(x.spent_by) == opt_view(old.spent_by),
        u.voucher_no matches Some(t) ==> opt_view(x.voucher_no) == Some(t@),
        u.voucher_no is None ==> opt_view(x.voucher_no) == opt_view(old.voucher_no),
{
}

/// Repeating an expense update changes nothing more.
pub proof fn law_expense_update_idempotent(old: ExpenseRow, u: UpdateExpensePayload, x: ExpenseRow, y: ExpenseRow)
    requires
        expense_merged(old, u, date_after(old.date, opt_view(u.date)), x),
        expense_merged(x, u, date_after(x.date, opt_view(u.date)), y),
    ensures
        y.ref_no@ == x.ref_no@,
        y.description@ == x.description@,
        opt_view(y.category) == opt_view(x.category),
        y.date == x.date,
        y.payment_mode@ == x.payment_mode@,
        opt_view(y.remarks) == opt_view(x.remarks),
        opt_view(y.utr) == opt_view(x.utr),
        opt_view(y.receipt) == opt_view(x.receipt),
        opt_view(y.party_name) == opt_view(x.party_name),
        opt_view(y.spent_by) == opt_view(x.spent_by),
        opt_view(y.voucher_no) == opt_view(x.voucher_no),
{
}

/// How a fee collection is stored.
#[derive(Debug)]
pub struct CollectionPlan {
    pub kind: FeeKind,
    pub write: ReceiptWrite,
    pub row: FeeRow,
}

/// The path of a fee type in the fee service, which has no library path of
/// its own: transport and hostel fees have theirs, every other type
/// (library included) is collected as tuition.
pub open spec fn service_kind_spec(t: Seq<char>) -> FeeKind {
    if t == "transport"@ {
        FeeKind::Transport
    } else if t == "hostel"@ {
        FeeKind::Hostel
    } else {
        FeeKind::Tuition
    }
}

/// The path of a fee type in the fee service.
pub fn service_fee_kind(fee_type: &str) -> (k: FeeKind)
    ensures
        k == service_kind_spec(fee_type@),
{
    if str_eq(fee_type, "transport") {
        FeeKind::Transport
    } else if str_eq(fee_type, "hostel") {
        FeeKind::Hostel
    } else {
        FeeKind::Tuition
    }
}

/// Whether a plan is what collecting along path `k` gives, once the
/// lookups are done.
pub open spec fn collection_ok(
    k: FeeKind,
    fee_type: Seq<char>,
    p: AddFeeRecordPayload,
    registered: bool,
    receipt_no: Seq<char>,
    receipt_taken: bool,
    r: Result<CollectionPlan, AppError>,
) -> bool {
    let unregistered = k is Tuition && !registered;
    let clash = receipt_clash_spec(k, receipt_no, receipt_taken);
    let dates_ok = date_read(p.receipt_date@) is Some && date_read(p.payment_date@) is Some;
    &&& unregistered ==> (r matches Err(e) && e.is_not_found(unregistered_message(p.student_id@)))
    &&& !unregistered && clash is Err ==> (r matches Err(e) && error_matches(e, clash->Err_0))
    &&& !unregistered && clash is Ok && date_read(p.receipt_date@) is None ==> (r matches Err(e)
        && e.is_bad_request("Invalid receipt date format"@))
    &&& !unregistered && clash is Ok && date_read(p.receipt_date@) is Some && date_read(
        p.payment_date@,
    ) is None ==> (r matches Err(e) && e.is_bad_request("Invalid payment date format"@))
    &&& !unregistered && clash is Ok && dates_ok ==> (r matches Ok(x) && x.kind == k && x.write
        == clash->Ok_0 && new_row_ok(k, fee_type, p, receipt_no, x.row))
}

/// Plans a fee collection along a given path once the request is valid,
/// the receipt number chosen and the lookups done (whether the student is
/// registered, whether the receipt number is on a record): a tuition fee
/// needs a registered student; then the receipt rule of the path; then the
/// record.
pub fn plan_collection_for(
    k: &FeeKind,
    fee_type: &str,
    p: &AddFeeRecordPayload,
    registered: bool,
    receipt_no: String,
    receipt_taken: bool,
) -> (r: Result<CollectionPlan, AppError>)
    ensures
        collection_ok(*k, fee_type@, *p, registered, receipt_no@, receipt_taken, r),
{
    let kind = *k;
    if let FeeKind::Tuition = kind {
        require_registered(p.student_id.as_str(), registered)?;
    }
    let write = receipt_clash(&kind, receipt_no.as_str(), receipt_taken)?;
    let row = new_fee_row(&kind, fee_type, p, receipt_no)?;
    Ok(CollectionPlan { kind, write, row })
}

/// Plans a fee collection on the fee screens, where the path follows the
/// fee type (`fee_kind`).
pub fn plan_collection(
    fee_type: &str,
    p: &AddFeeRecordPayload,
    registered: bool,
    receipt_no: String,
    receipt_taken: bool,
) -> (r: Result<CollectionPlan, AppError>)
    ensures
        collection_ok(fee_kind_spec(fee_type@), fee_type@, *p, registered, receipt_no@, receipt_taken, r),
{
    let k = fee_kind(fee_type);
    plan_collection_for(&k, fee_type, p, registered, receipt_no, receipt_taken)
}

/// A collection plan fails exactly on the first rule it breaks (a tuition
/// fee for an unregistered student, then the path's receipt rule, then a
/// date that does not read); once it succeeds, its path is the one asked
/// for and its record keeps the request's student, payment mode (`Online`
/// only when none is given), receipt number and dates.
pub proof fn law_collection_plan(
    k: FeeKind,
    fee_type: Seq<char>,
    p: AddFeeRecordPayload,
    registered: bool,
    receipt_no: Seq<char>,
    receipt_taken: bool,
    r: Result<CollectionPlan, AppError>,
)
    requires
        collection_ok(k, fee_type, p, registered, receipt_no, receipt_taken, r),
    ensures
        r is Ok <==> (!(k is Tuition && !registered) && receipt_clash_spec(k, receipt_no, receipt_taken)
            is Ok && date_read(p.receipt_date@) is Some && date_read(p.payment_date@) is Some),
        k is Tuition && !registered ==> (r matches Err(e) && e.is_not_found(
            unregistered_message(p.student_id@),
        )),
        r matches Ok(x) ==> x.kind == k && x.row.student_id@ == p.student_id@ && x.row.receipt_no@
            == receipt_no,
        r matches Ok(x) ==> date_read(p.receipt_date@) == Some(x.row.receipt_date) && date_read(
            p.payment_date@,
        ) == Some(x.row.payment_date),
        r matches Ok(x) ==> (p.payment_mode matches Some(m) ==> x.row.payment_mode@ == m@),
        r matches Ok(x) ==> (p.payment_mode is None ==> x.row.payment_mode@ == "Online"@),
{
    if r is Ok {
        law_new_row_keeps_request(k, fee_type, p, receipt_no, r->Ok_0.row);
    }
}

} // verus!
