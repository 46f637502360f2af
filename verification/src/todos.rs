use vstd::prelude::*;
use crate::dates::{parse_ymd, CalDate};
use crate::errors::{bad_request, not_found, AppError};
use crate::fees::date_read;
use crate::hostel::{text_or, text_or_default};
use crate::sms::opt_view;
use crate::text::{lemma_trim_idempotent, trim, trim_spec};

verus! {

/// A new task of a module's to-do list.
#[derive(Debug)]
pub struct CreateTodoPayload {
    pub text: String,
    pub priority: Option<String>,
    pub due_date: Option<String>,
    pub category: Option<String>,
}

/// A partial change of a task; an empty due date or category clears it.
#[derive(Debug)]
pub struct UpdateTodoPayload {
    pub text: Option<String>,
    pub completed: Option<bool>,
    pub priority: Option<String>,
    pub due_date: Option<String>,
    pub category: Option<String>,
}

/// The stored fields of a task that the rules decide.
#[derive(Debug)]
pub struct TodoEntry {
    pub text: String,
    pub completed: bool,
    pub priority: String,
    pub due_date: Option<CalDate>,
    pub category: Option<String>,
}

/// A due date field that is given, not empty, and no date.
pub open spec fn bad_due_date(field: Option<Seq<char>>) -> bool {
    match field {
        Some(t) => t.len() != 0 && date_read(t) is None,
        None => false,
    }
}

/// The message of a due date that is no date.
pub open spec fn due_date_message() -> Seq<char> {
    "Invalid due date format"@
}

/// Reads a due date that is given and not empty.
fn read_due_date(t: &str) -> (r: Result<CalDate, AppError>)
    ensures
        match date_read(t@) {
            Some(d) => r == Ok::<CalDate, AppError>(d),
            None => r matches Err(e) && e.is_bad_request(due_date_message()),
        },
{
    match parse_ymd(t) {
        Some(d) => Ok(d),
        None => Err(bad_request("Invalid due date format")),
    }
}

/// A new task: the text trimmed, the priority `medium` unless given, a due
/// date only when one is given and not empty (it must then be a date), and
/// the category as given. New tasks are not completed.
pub fn new_todo(p: &CreateTodoPayload) -> (r: Result<TodoEntry, AppError>)
    ensures
        bad_due_date(opt_view(p.due_date)) ==> (r matches Err(e) && e.is_bad_request(
            due_date_message(),
        )),
        !bad_due_date(opt_view(p.due_date)) ==> (r matches Ok(x) && {
            &&& x.text@ == trim_spec(p.text@)
            &&& !x.completed
            &&& x.priority@ == text_or(p.priority, "medium"@)
            &&& x.due_date == (match p.due_date {
                Some(t) => if t@.len() == 0 {
                    None
                } else {
                    date_read(t@)
                },
                None => None,
            })
            &&& opt_view(x.category) == opt_view(p.category)
        }),
{
    let due_date = match &p.due_date {
        Some(t) => if t.as_str().unicode_len() == 0 {
            None
        } else {
            Some(read_due_date(t.as_str())?)
        },
        None => None,
    };
    Ok(TodoEntry {
        text: String::from_str(trim(p.text.as_str())),
        completed: false,
        priority: text_or_default(&p.priority, "medium"),
        due_date,
        category: p.category.clone(),
    })
}

/// A due date after an update: an empty text clears it.
pub open spec fn due_after(old: Option<CalDate>, field: Option<Seq<char>>) -> Option<CalDate> {
    match field {
        Some(t) => if t.len() == 0 {
            None
        } else {
            date_read(t)
        },
        None => old,
    }
}

/// A category after an update: an empty text clears it.
pub open spec fn category_after(old: Option<Seq<char>>, field: Option<Seq<char>>) -> Option<
    Seq<char>,
> {
    match field {
        Some(t) => if t.len() == 0 {
            None
        } else {
            Some(t)
        },
        None => old,
    }
}

/// Whether a task is the stored one with an update put in.
pub open spec fn todo_updated(old: TodoEntry, u: UpdateTodoPayload, x: TodoEntry) -> bool {
    &&& x.text@ == trim_spec(text_or(u.text, old.text@))
    &&& x.completed == (match u.completed {
        Some(c) => c,
        None => old.completed,
    })
    &&& x.priority@ == text_or(u.priority, old.priority@)
    &&& x.due_date == due_after(old.due_date, opt_view(u.due_date))
    &&& opt_view(x.category) == category_after(opt_view(old.category), opt_view(u.category))
}

/// Applies an update to a stored task: given fields replace the stored
/// ones and the text is trimmed; an empty due date or category clears it,
/// and a due date that is given must be a date.
pub fn updated_todo(old: TodoEntry, u: &UpdateTodoPayload) -> (r: Result<TodoEntry, AppError>)
    ensures
        bad_due_date(opt_view(u.due_date)) ==> (r matches Err(e) && e.is_bad_request(
            due_date_message(),
        )),
        !bad_due_date(opt_view(u.due_date)) ==> (r matches Ok(x) && todo_updated(old, *u, x)),
{
    let text = match &u.text {
        Some(t) => String::from_str(trim(t.as_str())),
        None => String::from_str(trim(old.text.as_str())),
    };
    let completed = match u.completed {
        Some(c) => c,
        None => old.completed,
    };
    let priority = match &u.priority {
        Some(p) => p.clone(),
        None => old.priority,
    };
    let due_date = match &u.due_date {
        Some(t) => if t.as_str().unicode_len() == 0 {
            None
        } else {
            Some(read_due_date(t.as_str())?)
        },
        None => old.due_date,
    };
    let category = match &u.category {
        Some(c) => if c.as_str().unicode_len() == 0 {
            None
        } else {
            Some(c.clone())
        },
        None => old.category,
    };
    Ok(TodoEntry { text, completed, priority, due_date, category })
}

/// A task that was not there to change or delete is reported as not
/// found.
pub fn require_todo(found: bool) -> (r: Result<(), AppError>)
    ensures
        found ==> r is Ok,
        !found ==> (r matches Err(e) && e.is_not_found("Todo not found"@)),
{
    if found {
        Ok(())
    } else {
        Err(not_found("Todo not found"))
    }
}

/// An empty due date or category in an update clears it, whatever the task
/// held before.
pub proof fn law_empty_field_clears(old: TodoEntry, u: UpdateTodoPayload, x: TodoEntry)
    requires
        todo_updated(old, u, x),
    ensures
        u.due_date matches Some(t) && t@.len() == 0 ==> x.due_date is None,
        u.category matches Some(c) && c@.len() == 0 ==> x.category is None,
{
}

/// Repeating a task update changes nothing more.
pub proof fn law_todo_update_idempotent(old: TodoEntry, u: UpdateTodoPayload, x: TodoEntry, y: TodoEntry)
    requires
        todo_updated(old, u, x),
        todo_updated(x, u, y),
    ensures
        y.completed == x.completed,
        y.priority@ == x.priority@,
        y.due_date == x.due_date,
        opt_view(y.category) == opt_view(x.category),
        y.text@ == x.text@,
{
    lemma_trim_idempotent(text_or(u.text, old.text@));
}

/// Each field that a task update gives replaces the stored one (the text
/// trimmed, a non-empty due date read as a date, a non-empty category as
/// given), and each it leaves out stays as stored.
pub proof fn law_todo_update_replaces_given(old: TodoEntry, u: UpdateTodoPayload, x: TodoEntry)
    requires
        todo_updated(old, u, x),
    ensures
        u.text matches Some(t) ==> x.text@ == trim_spec(t@),
        u.text is None ==> x.text@ == trim_spec(old.text@),
        u.completed matches Some(c) ==> x.completed == c,
        u.completed is None ==> x.completed == old.completed,
        u.priority matches Some(t) ==> x.priority@ == t@,
        u.priority is None ==> x.priority@ == old.priority@,
        u.due_date matches Some(t) ==> (t@.len() != 0 ==> x.due_date == date_read(t@)),
        u.due_date is None ==> x.due_date == old.due_date,
        u.category matches Some(t) ==> (t@.len() != 0 ==> opt_view(x.category) == Some(t@)),
        u.category is None ==> opt_view(x.category) == opt_view(old.category),
{
}

} // verus!
