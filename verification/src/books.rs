use vstd::prelude::*;
use crate::dates::{parse_ymd, today, CalDate};
use crate::errors::{conflict, AppError};
use crate::fees::{date_after, date_read};
use crate::hostel::{text_or, text_or_default};
use crate::sms::opt_view;
use crate::transport::or_old;

verus! {

/// The stored fields of a catalogue entry (book, journal or magazine),
/// apart from its price.
#[derive(Debug)]
pub struct BookRow {
    pub acc_no: Option<String>,
    pub title: String,
    pub author: String,
    pub subject: Option<String>,
    pub quantity: i32,
    pub added_date: CalDate,
    pub sl_no: Option<String>,
    /// `book`, `international_journal`, `national_journal` or `magazine`.
    pub book_type: String,
    pub volume: Option<String>,
    pub number_val: Option<String>,
    pub month: Option<String>,
    pub year: Option<String>,
    pub publisher: Option<String>,
}

/// A new catalogue entry, apart from its price.
#[derive(Debug)]
pub struct AddBookPayload {
    pub acc_no: Option<String>,
    pub title: String,
    pub author: String,
    pub subject: Option<String>,
    pub quantity: Option<i32>,
    pub added_date: Option<String>,
    pub sl_no: Option<String>,
    pub book_type: Option<String>,
    pub volume: Option<String>,
    pub number_val: Option<String>,
    pub month: Option<String>,
    pub year: Option<String>,
    pub publisher: Option<String>,
}

/// A partial change of a catalogue entry, apart from its price.
#[derive(Debug)]
pub struct UpdateBookPayload {
    pub acc_no: Option<String>,
    pub title: Option<String>,
    pub author: Option<String>,
    pub subject: Option<String>,
    pub quantity: Option<i32>,
    pub added_date: Option<String>,
    pub sl_no: Option<String>,
    pub book_type: Option<String>,
    pub volume: Option<String>,
    pub number_val: Option<String>,
    pub month: Option<String>,
    pub year: Option<String>,
    pub publisher: Option<String>,
}

/// A date field that the catalogue screens read only when it is given and
/// not empty.
pub open spec fn filled_date_ok(field: Option<String>) -> bool {
    match field {
        Some(t) => t@.len() == 0 || date_read(t@) is Some,
        None => true,
    }
}

/// The message of an accession number that another entry has.
pub open spec fn acc_no_taken_message() -> Seq<char> {
    "Accession number already exists"@
}

/// An optional field after an optional replacement.
pub open spec fn opt_after(new: Option<String>, old: Option<String>) -> Option<Seq<char>> {
    match new {
        Some(t) => Some(t@),
        None => opt_view(old),
    }
}

/// Whether an entry is a new one made from a request: quantity 1 and type
/// `book` unless given, the added date given (when not empty) or today,
/// and the other fields as given.
pub open spec fn new_book_ok(p: AddBookPayload, today: CalDate, x: BookRow) -> bool {
    &&& opt_view(x.acc_no) == opt_view(p.acc_no)
    &&& x.title@ == p.title@
    &&& x.author@ == p.author@
    &&& opt_view(x.subject) == opt_view(p.subject)
    &&& x.quantity == (match p.quantity {
        Some(q) => q,
        None => 1i32,
    })
    &&& x.added_date == (match p.added_date {
        Some(t) => if t@.len() == 0 {
            today
        } else {
            date_after(today, Some(t@))
        },
        None => today,
    })
    &&& opt_view(x.sl_no) == opt_view(p.sl_no)
    &&& x.book_type@ == text_or(p.book_type, "book"@)
    &&& opt_view(x.volume) == opt_view(p.volume)
    &&& opt_view(x.number_val) == opt_view(p.number_val)
    &&& opt_view(x.month) == opt_view(p.month)
    &&& opt_view(x.year) == opt_view(p.year)
    &&& opt_view(x.publisher) == opt_view(p.publisher)
}

/// Adds a catalogue entry, once it is known whether a given accession
/// number is already used. Unless that number is refused, a given,
/// non-empty added date must be a date.
pub fn new_book(p: &AddBookPayload, acc_no_taken: bool, today: CalDate) -> (r: Result<BookRow, AppError>)
    requires
        p.acc_no is Some && acc_no_taken || filled_date_ok(p.added_date),
    ensures
        p.acc_no is Some && acc_no_taken ==> (r matches Err(e) && e.is_conflict(
            acc_no_taken_message(),
        )),
        !(p.acc_no is Some && acc_no_taken) ==> (r matches Ok(x) && new_book_ok(*p, today, x)),
{
    if p.acc_no.is_some() && acc_no_taken {
        return Err(conflict("Accession number already exists"));
    }
    let added_date = match &p.added_date {
        Some(t) => if t.as_str().unicode_len() == 0 {
            today
        } else {
            match parse_ymd(t.as_str()) {
                Some(d) => d,
                None => today,
            }
        },
        None => today,
    };
    Ok(BookRow {
        acc_no: p.acc_no.clone(),
        title: p.title.clone(),
        author: p.author.clone(),
        subject: p.subject.clone(),
        quantity: match p.quantity {
            Some(q) => q,
            None => 1i32,
        },
        added_date,
        sl_no: p.sl_no.clone(),
        book_type: text_or_default(&p.book_type, "book"),
        volume: p.volume.clone(),
        number_val: p.number_val.clone(),
        month: p.month.clone(),
        year: p.year.clone(),
        publisher: p.publisher.clone(),
    })
}

/// `new_book` on today's date.
pub fn new_book_now(p: &AddBookPayload, acc_no_taken: bool) -> (r: Result<BookRow, AppError>)
    requires
        p.acc_no is Some && acc_no_taken || filled_date_ok(p.added_date),
    ensures
        p.acc_no is Some && acc_no_taken ==> (r matches Err(e) && e.is_conflict(
            acc_no_taken_message(),
        )),
        !(p.acc_no is Some && acc_no_taken) ==> (r matches Ok(x) && exists|t: CalDate|
            1 <= t.month <= 12 && 1 <= t.day <= 31 && #[trigger] new_book_ok(*p, t, x)),
{
    let t = today();
    new_book(p, acc_no_taken, t)
}

/// Whether an entry is the stored one with an update's given fields put
/// in; `added_date` is the stored date afterwards.
pub open spec fn book_merged(old: BookRow, u: UpdateBookPayload, added_date: CalDate, x: BookRow) -> bool {
    &&& opt_view(x.acc_no) == opt_after(u.acc_no, old.acc_no)
    &&& x.title@ == or_old(u.title, old.title@)
    &&& x.author@ == or_old(u.author, old.author@)
    &&& opt_view(x.subject) == opt_after(u.subject, old.subject)
    &&& x.quantity == (match u.quantity {
        Some(q) => q,
        None => old.quantity,
    })
    &&& x.added_date == added_date
    &&& opt_view(x.sl_no) == opt_after(u.sl_no, old.sl_no)
    &&& x.book_type@ == or_old(u.book_type, old.book_type@)
    &&& opt_view(x.volume) == opt_after(u.volume, old.volume)
    &&& opt_view(x.number_val) == opt_after(u.number_val, old.number_val)
    &&& opt_view(x.month) == opt_after(u.month, old.month)
    &&& opt_view(x.year) == opt_after(u.year, old.year)
    &&& opt_view(x.publisher) == opt_after(u.publisher, old.publisher)
}

/// The stored added date after an update: an empty text counts as not
/// given and keeps the stored date; a given text that reads as a date
/// replaces it.
pub open spec fn added_date_after(old: CalDate, field: Option<String>) -> CalDate {
    match field {
        Some(t) => if t@.len() == 0 {
            old
        } else {
            date_after(old, Some(t@))
        },
        None => old,
    }
}

/// A text field after an optional replacement.
fn text_replaced(new: &Option<String>, old: String) -> (r: String)
    ensures
        r@ == or_old(*new, old@),
{
    match new {
        Some(t) => t.clone(),
        None => old,
    }
}

/// An optional field after an optional replacement.
fn opt_replaced(new: &Option<String>, old: Option<String>) -> (r: Option<String>)
    ensures
        opt_view(r) == opt_after(*new, old),
{
    match new {
        Some(t) => Some(t.clone()),
        None => old,
    }
}

/// Puts an update's given fields into a stored entry; an empty added date
/// keeps the stored one, a given text that reads as a date replaces it.
pub fn book_update(old: BookRow, u: &UpdateBookPayload) -> (r: BookRow)
    ensures
        book_merged(old, *u, added_date_after(old.added_date, u.added_date), r),
{
    let added_date = match &u.added_date {
        Some(t) => if t.as_str().unicode_len() == 0 {
            old.added_date
        } else {
            match parse_ymd(t.as_str()) {
                Some(d) => d,
                None => old.added_date,
            }
        },
        None => old.added_date,
    };
    BookRow {
        acc_no: opt_replaced(&u.acc_no, old.acc_no),
        title: text_replaced(&u.title, old.title),
        author: text_replaced(&u.author, old.author),
        subject: opt_replaced(&u.subject, old.subject),
        quantity: match u.quantity {
            Some(q) => q,
            None => old.quantity,
        },
        added_date,
        sl_no: opt_replaced(&u.sl_no, old.sl_no),
        book_type: text_replaced(&u.book_type, old.book_type),
        volume: opt_replaced(&u.volume, old.volume),
        number_val: opt_replaced(&u.number_val, old.number_val),
        month: opt_replaced(&u.month, old.month),
        year: opt_replaced(&u.year, old.year),
        publisher: opt_replaced(&u.publisher, old.publisher),
    }
}

/// The catalogue edit screen's update: a given accession number must not
/// belong to another entry; then the given fields replace the stored ones
/// (there, a given, non-empty added date must be a date).
pub fn book_edit(old: BookRow, u: &UpdateBookPayload, acc_no_taken: bool) -> (r: Result<BookRow, AppError>)
    requires
        u.acc_no is Some && acc_no_taken || filled_date_ok(u.added_date),
    ensures
        u.acc_no is Some && acc_no_taken ==> (r matches Err(e) && e.is_conflict(
            acc_no_taken_message(),
        )),
        !(u.acc_no is Some && acc_no_taken) ==> (r matches Ok(x) && book_merged(
            old,
            *u,
            added_date_after(old.added_date, u.added_date),
            x,
        )),
{
    if u.acc_no.is_some() && acc_no_taken {
        return Err(conflict("Accession number already exists"));
    }
    Ok(book_update(old, u))
}

/// Repeating a catalogue update changes nothing more.
pub proof fn law_book_update_idempotent(old: BookRow, u: UpdateBookPayload, x: BookRow, y: BookRow)
    requires
        book_merged(old, u, added_date_after(old.added_date, u.added_date), x),
        book_merged(x, u, added_date_after(x.added_date, u.added_date), y),
    ensures
        opt_view(y.acc_no) == opt_view(x.acc_no),
        y.title@ == x.title@,
        y.author@ == x.author@,
        opt_view(y.subject) == opt_view(x.subject),
        y.quantity == x.quantity,
        y.added_date == x.added_date,
        opt_view(y.sl_no) == opt_view(x.sl_no),
        y.book_type@ == x.book_type@,
        opt_view(y.volume) == opt_view(x.volume),
        opt_view(y.number_val) == opt_view(x.number_val),
        opt_view(y.month) == opt_view(x.month),
        opt_view(y.year) == opt_view(x.year),
        opt_view(y.publisher) == opt_view(x.publisher),
{
}

/// A new catalogue entry holds what the request gives: each field as
/// given, a quantity of 1 and the type `book` only where none is given,
/// and the given added date once it reads as a date (today when it is
/// absent or empty).
pub proof fn law_new_book_keeps_request(p: AddBookPayload, today: CalDate, x: BookRow)
    requires
        new_book_ok(p, today, x),
    ensures
        opt_view(x.acc_no) == opt_view(p.acc_no),
        x.title@ == p.title@,
        x.author@ == p.author@,
        opt_view(x.subject) == opt_view(p.subject),
        p.quantity matches Some(q) ==> x.quantity == q,
        p.quantity is None ==> x.quantity == 1,
        p.added_date matches Some(t) ==> (t@.len() != 0 && date_read(t@) is Some ==> date_read(t@)
            == Some(x.added_date)),
        p.added_date matches Some(t) ==> (t@.len() == 0 ==> x.added_date == today),
        p.added_date is None ==> x.added_date == today,
        opt_view(x.sl_no) == opt_view(p.sl_no),
        p.book_type matches Some(t) ==> x.book_type@ == t@,
        p.book_type is None ==> x.book_type@ == "book"@,
        opt_view(x.volume) == opt_view(p.volume),
        opt_view(x.number_val) == opt_view(p.number_val),
        opt_view(x.month) == opt_view(p.month),
        opt_view(x.year) == opt_view(p.year),
        opt_view(x.publisher) == opt_view(p.publisher),
{
}

/// Each field that a catalogue update gives replaces the stored one, and
/// each it leaves out stays; a given added date replaces the stored one
/// when it reads as a date, and an empty one keeps it.
pub proof fn law_book_update_replaces_given(old: BookRow, u: UpdateBookPayload, x: BookRow)
    requires
        book_merged(old, u, added_date_after(old.added_date, u.added_date), x),
    ensures
        u.acc_no matches Some(t) ==> opt_view(x.acc_no) == Some(t@),
        u.acc_no is None ==> opt_view(x.acc_no) == opt_view(old.acc_no),
        u.title matches Some(t) ==> x.title@ == t@,
        u.title is None ==> x.title@ == old.title@,
        u.author matches Some(t) ==> x.author@ == t@,
        u.author is None ==> x.author@ == old.author@,
        u.subject matches Some(t) ==> opt_view(x.subject) == Some(t@),
        u.subject is None ==> opt_view(x.subject) == opt_view(old.subject),
        u.quantity matches Some(q) ==> x.quantity == q,
        u.quantity is None ==> x.quantity == old.quantity,
        u.added_date matches Some(t) ==> (t@.len() != 0 && date_read(t@) is Some ==> date_read(t@)
            == Some(x.added_date)),
        u.added_date matches Some(t) ==> (t@.len() == 0 ==> x.added_date == old.added_date),
        u.added_date is None ==> x.added_date == old.added_date,
        u.sl_no matches Some(t) ==> opt_view(x.sl_no) == Some(t@),
        u.sl_no is None ==> opt_view(x.sl_no) == opt_view(old.sl_no),
        u.book_type matches Some(t) ==> x.book_type@ == t@,
        u.book_type is None ==> x.book_type@ == old.book_type@,
        u.volume matches Some(t) ==> opt_view(x.volume) == Some(t@),
        u.volume is None ==> opt_view(x.volume) == opt_view(old.volume),
        u.number_val matches Some(t) ==> opt_view(x.number_val) == Some(t@),
        u.number_val is None ==> opt_view(x.number_val) == opt_view(old.number_val),
        u.month matches Some(t) ==> opt_view(x.month) == Some(t@),
        u.month is None ==> opt_view(x.month) == opt_view(old.month),
        u.year matches Some(t) ==> opt_view(x.year) == Some(t@),
        u.year is None ==> opt_view(x.year) == opt_view(old.year),
        u.publisher matches Some(t) ==> opt_view(x.publisher) == Some(t@),
        u.publisher is None ==> opt_view(x.publisher) == opt_view(old.publisher),
{
}

} // verus!
