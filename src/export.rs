use vstd::prelude::*;

use icalendar::{Component, EventLike};

use crate::date::{digit_char, four_digits, two_digits, Date};
use crate::task::Task;

verus! {

#[verifier::external_type_specification]
#[verifier::external_body]
pub struct ExCalendar(icalendar::Calendar);

#[verifier::external_type_specification]
#[verifier::external_body]
pub struct ExTodo(icalendar::Todo);

#[verifier::external_type_specification]
#[verifier::external_body]
pub struct ExCalendarComponent(icalendar::CalendarComponent);

/// The properties of a to-do, as name and value text.
pub uninterp spec fn todo_properties(t: icalendar::Todo) -> Map<Seq<char>, Seq<char>>;

/// The components of a calendar, each by its properties, in the order they were added.
pub uninterp spec fn calendar_components(c: icalendar::Calendar) -> Seq<Map<Seq<char>, Seq<char>>>;

/// The top-level properties of a calendar, as name and value text, in order.
pub uninterp spec fn calendar_properties(c: icalendar::Calendar) -> Seq<(Seq<char>, Seq<char>)>;

/// Relies on icalendar's `Calendar::new`: no components, and the properties `VERSION`,
/// `PRODID` and `CALSCALE`.
#[verifier::external_body]
fn new_calendar() -> (r: icalendar::Calendar)
    ensures
        calendar_components(r).len() == 0,
        calendar_properties(r) == seq![
            ("VERSION"@, "2.0"@),
            ("PRODID"@, "ICALENDAR-RS"@),
            ("CALSCALE"@, "GREGORIAN"@),
        ],
{
    icalendar::Calendar::new()
}

/// Relies on icalendar's `Calendar::name`: appends the properties `NAME` and `X-WR-CALNAME`.
#[verifier::external_body]
fn calendar_set_name(c: &mut icalendar::Calendar, name: &str)
    ensures
        calendar_components(*final(c)) == calendar_components(*old(c)),
        calendar_properties(*final(c)) == calendar_properties(*old(c)).push(("NAME"@, name@)).push(
            ("X-WR-CALNAME"@, name@),
        ),
{
    c.name(name);
}

/// Relies on icalendar's `Calendar::push`: appends the to-do as the last component.
#[verifier::external_body]
fn calendar_push_todo(c: &mut icalendar::Calendar, todo: icalendar::Todo)
    ensures
        calendar_components(*final(c)) == calendar_components(*old(c)).push(todo_properties(todo)),
        calendar_properties(*final(c)) == calendar_properties(*old(c)),
{
    c.push(todo);
}

/// No properties at all.
pub open spec fn no_properties() -> Map<Seq<char>, Seq<char>> {
    Map::empty()
}

/// Relies on icalendar's `Todo::new`: a to-do without properties.
#[verifier::external_body]
fn new_todo() -> (r: icalendar::Todo)
    ensures
        todo_properties(r) == no_properties(),
{
    icalendar::Todo::new()
}

/// The text `yyyymmdd` of a date.
pub open spec fn ymd_text(d: Date) -> Seq<char> {
    four_digits(d.year as int) + two_digits(d.month as int) + two_digits(d.day as int)
}

/// Relies on icalendar's `EventLike::all_day`: sets `DTSTART` and `DTEND` to the date written
/// by chrono as `%Y%m%d`, four digits for a year from 0 to 9999.
#[verifier::external_body]
fn todo_all_day(t: &mut icalendar::Todo, d: &Date)
    requires
        d.wf(),
    ensures
        todo_properties(*final(t)) == todo_properties(*old(t)).insert("DTSTART"@, ymd_text(*d)).insert(
            "DTEND"@,
            ymd_text(*d),
        ),
{
    t.all_day(chrono::NaiveDate::from_ymd_opt(d.year, d.month, d.day).unwrap());
}

/// Relies on icalendar's `Component::summary`: sets `SUMMARY`.
#[verifier::external_body]
fn todo_summary(t: &mut icalendar::Todo, s: &str)
    ensures
        todo_properties(*final(t)) == todo_properties(*old(t)).insert("SUMMARY"@, s@),
{
    t.summary(s);
}

/// Relies on icalendar's `Component::description`: sets `DESCRIPTION`.
#[verifier::external_body]
fn todo_description(t: &mut icalendar::Todo, s: &str)
    ensures
        todo_properties(*final(t)) == todo_properties(*old(t)).insert("DESCRIPTION"@, s@),
{
    t.description(s);
}

/// Relies on icalendar's `Todo::status` with `TodoStatus::Completed`: sets `STATUS` to
/// `COMPLETED`.
#[verifier::external_body]
fn todo_mark_completed(t: &mut icalendar::Todo)
    ensures
        todo_properties(*final(t)) == todo_properties(*old(t)).insert("STATUS"@, "COMPLETED"@),
{
    t.status(icalendar::TodoStatus::Completed);
}

/// Relies on icalendar's `Todo::status` with `TodoStatus::NeedsAction`: sets `STATUS` to
/// `NEEDS-ACTION`.
#[verifier::external_body]
fn todo_mark_needs_action(t: &mut icalendar::Todo)
    ensures
        todo_properties(*final(t)) == todo_properties(*old(t)).insert("STATUS"@, "NEEDS-ACTION"@),
{
    t.status(icalendar::TodoStatus::NeedsAction);
}

/// Relies on icalendar's `Component::priority`: sets `PRIORITY` to the decimal text of the
/// priority, one digit below ten.
#[verifier::external_body]
fn todo_priority(t: &mut icalendar::Todo, p: u32)
    requires
        p <= 9,
    ensures
        todo_properties(*final(t)) == todo_properties(*old(t)).insert("PRIORITY"@, seq![digit_char(p as int)]),
{
    t.priority(p);
}

/// The properties of the to-do that a task is exported as.
pub open spec fn todo_of_task(t: Task) -> Map<Seq<char>, Seq<char>> {
    let dated = match t.date {
        Some(d) => if d.wf() {
            no_properties().insert("DTSTART"@, ymd_text(d)).insert(
                "DTEND"@,
                ymd_text(d),
            )
        } else {
            no_properties()
        },
        None => no_properties(),
    };
    dated.insert("SUMMARY"@, t.title@).insert("DESCRIPTION"@, t.description@).insert(
        "STATUS"@,
        if t.completed {
            "COMPLETED"@
        } else {
            "NEEDS-ACTION"@
        },
    ).insert("PRIORITY"@, seq![digit_char(t.priority.rank() as int)])
}

/// The to-do that a task is exported as: its title as summary, its description, its status,
/// its priority rank and, if it has a valid due date, that day.
fn build_todo_task(task: &Task) -> (r: icalendar::Todo)
    ensures
        todo_properties(r) == todo_of_task(*task),
{
    let mut todo = new_todo();
    if let Some(d) = &task.date {
        if d.is_valid() {
            todo_all_day(&mut todo, d);
        }
    }
    todo_summary(&mut todo, task.title.as_str());
    todo_description(&mut todo, task.description.as_str());
    if task.completed {
        todo_mark_completed(&mut todo);
    } else {
        todo_mark_needs_action(&mut todo);
    }
    todo_priority(&mut todo, task.priority.to_usize() as u32);
    todo
}

/// A calendar of the given name with one to-do for each task, in order.
pub fn export_tasks_to_icalendar(calendar_name: &str, tasks: &[Task]) -> (r: icalendar::Calendar)
    ensures
        calendar_components(r).len() == tasks@.len(),
        forall|i: int| 0 <= i < tasks@.len() ==> #[trigger] calendar_components(r)[i] == todo_of_task(tasks@[i]),
        calendar_properties(r) == seq![
            ("VERSION"@, "2.0"@),
            ("PRODID"@, "ICALENDAR-RS"@),
            ("CALSCALE"@, "GREGORIAN"@),
            ("NAME"@, calendar_name@),
            ("X-WR-CALNAME"@, calendar_name@),
        ],
{
    let mut calendar = new_calendar();
    calendar_set_name(&mut calendar, calendar_name);
    let mut i: usize = 0;
    while i < tasks.len()
        invariant
            i <= tasks@.len(),
            calendar_components(calendar).len() == i,
            forall|j: int| 0 <= j < i ==> #[trigger] calendar_components(calendar)[j] == todo_of_task(tasks@[j]),
            calendar_properties(calendar) == seq![
                ("VERSION"@, "2.0"@),
                ("PRODID"@, "ICALENDAR-RS"@),
                ("CALSCALE"@, "GREGORIAN"@),
                ("NAME"@, calendar_name@),
                ("X-WR-CALNAME"@, calendar_name@),
            ],
        decreases tasks@.len() - i,
    {
        let todo = build_todo_task(&tasks[i]);
        calendar_push_todo(&mut calendar, todo);
        i = i + 1;
    }
    calendar
}

} // verus!
