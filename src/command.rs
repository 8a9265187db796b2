use vstd::prelude::*;

use crate::app::{AppContext, InputFieldType, InputMode};
use crate::date::{is_canonical_date_text, Date};
use crate::task::{Priority, Task};
use crate::task_db::{rows_updated, with_completed, with_priority, RowFields, RowOrder};
use crate::task_manager::{lists_tasks, task_matches, TaskError};

verus! {

/// One action of the user on the task list or the editing session.
pub trait Command {
    fn execute(&mut self, app: &mut AppContext) -> (r: Result<(), TaskError>)
        requires
            old(app).wf(),
        ensures
            final(app).wf(),
    ;
}

/// The stored text of the due date that the date field gives: none where the field is
/// empty, else the field's text.
pub open spec fn date_field(s: Seq<char>) -> Option<Seq<char>> {
    if s.len() == 0 {
        None
    } else {
        Some(s)
    }
}

/// Whether the text of the date field is accepted: empty, or `dd-mm-yyyy` naming a day of
/// the calendar.
pub open spec fn date_input_ok(s: Seq<char>) -> bool {
    s.len() == 0 || is_canonical_date_text(s)
}

/// The stored fields of the task that confirming an add creates.
pub open spec fn added_fields(app: AppContext) -> RowFields {
    (app.input_title@, app.input_description@, false, Priority::Low.rank() as int, date_field(
        app.input_date@,
    ))
}

/// The stored fields that confirming an edit of task `t` writes.
pub open spec fn edited_fields(app: AppContext, t: Task) -> RowFields {
    (app.input_title@, app.input_description@, t.completed, t.priority.rank() as int, date_field(
        app.input_date@,
    ))
}

/// The task selected in `app`, where there is one.
pub open spec fn selected_task(app: AppContext) -> Task {
    app.task_list.items@[app.task_list.selected.unwrap() as int]
}

/// Whether task `b` is task `a` with the completed flag flipped.
pub open spec fn toggled(a: Task, b: Task) -> bool {
    &&& b.id == a.id
    &&& b.title == a.title
    &&& b.description == a.description
    &&& b.completed == !a.completed
    &&& b.priority == a.priority
    &&& b.date == a.date
}

/// Whether task `b` is task `a` with the next priority of the cycle.
pub open spec fn reprioritized(a: Task, b: Task) -> bool {
    &&& b.id == a.id
    &&& b.title == a.title
    &&& b.description == a.description
    &&& b.completed == a.completed
    &&& b.priority == a.priority.spec_next()
    &&& b.date == a.date
}

/// Whether the list `b` is `a` with the entry `i` replaced by one that `rel` relates to it.
pub open spec fn patched(a: Seq<Task>, b: Seq<Task>, i: int, rel: spec_fn(Task, Task) -> bool) -> bool {
    &&& b.len() == a.len()
    &&& rel(a[i], b[i])
    &&& forall|j: int| 0 <= j < a.len() && j != i ==> b[j] == a[j]
}

/// The selection after the entry `i` left a list that now has `len` entries.
pub open spec fn selection_after_removal(i: usize, len: nat) -> Option<usize> {
    if i < len {
        Some(i)
    } else if len > 0 {
        Some((len - 1) as usize)
    } else {
        None
    }
}

/// Whether `b` is `a` after a failed confirmation: the error is shown, and the session and the
/// store are as they were.
pub open spec fn failed_keeping_input(a: AppContext, b: AppContext) -> bool {
    &&& b.error is Some
    &&& b.input_mode == a.input_mode
    &&& b.input_field == a.input_field
    &&& b.show_help == a.show_help
    &&& b.same_buffers(&a)
    &&& b.task_list.items@ == a.task_list.items@
    &&& b.task_list.selected == a.task_list.selected
    &&& b.tasks_service.rows() == a.tasks_service.rows()
}

/// Whether `b` and `r` are what entering the adding mode in `a` gives: empty buffers, the
/// title field active, and the error, the list and the store untouched.
pub open spec fn enters_add_mode(a: AppContext, b: AppContext, r: Result<(), TaskError>) -> bool {
    &&& r is Ok
    &&& b.input_mode == InputMode::Adding
    &&& b.input_field == InputFieldType::Title
    &&& b.buffers_empty()
    &&& b.error == a.error
    &&& b.show_help == a.show_help
    &&& b.same_tasks(&a)
}

/// Whether the list `b` is the list `a` with the task of the new row `id` added at its end.
pub open spec fn appends_new_task(a: Seq<Task>, b: Seq<Task>, id: int, f: RowFields) -> bool {
    &&& b.len() == a.len() + 1
    &&& b.drop_last() == a
    &&& b.last().id == id
    &&& task_matches(b.last(), id, f)
}

/// Whether `b` and `r` are what confirming an add in `a` gives. With a title, the date field
/// is refused exactly when `InvalidDate` comes back. On success the store holds one new task
/// made of the buffers, the list holds the stored tasks again (read anew, or with the new one
/// appended where reading failed), and browsing resumes with empty buffers and no error. On
/// failure the error is shown and the editor, its buffers and the list stay as they were.
pub open spec fn adds_task(a: AppContext, b: AppContext, r: Result<(), TaskError>) -> bool {
    &&& a.input_title@.len() == 0 ==> r is Ok && b == a
    &&& a.input_title@.len() > 0 ==> {
        let m = a.tasks_service.rows();
        &&& r == Err::<(), TaskError>(TaskError::InvalidDate) <==> !date_input_ok(a.input_date@)
        &&& !date_input_ok(a.input_date@) ==> failed_keeping_input(a, b)
        &&& r is Ok ==> {
            &&& exists|id: int|
                #![trigger m.insert(id, added_fields(a))]
                !m.contains_key(id) && b.tasks_service.rows() == m.insert(id, added_fields(a)) && (
                lists_tasks(b.tasks_service.rows(), b.task_list.items@, RowOrder::PriorityDesc)
                    || appends_new_task(a.task_list.items@, b.task_list.items@, id, added_fields(a)))
            &&& b.input_mode == InputMode::View
            &&& b.buffers_empty()
            &&& b.error is None
        }
        &&& r is Err ==> {
            &&& b.error is Some
            &&& b.input_mode == a.input_mode
            &&& b.input_field == a.input_field
            &&& b.show_help == a.show_help
            &&& b.same_buffers(&a)
            &&& b.task_list.items@ == a.task_list.items@
            &&& b.task_list.selected == a.task_list.selected
            &&& b.tasks_service.rows() == m || exists|id: int|
                #![trigger m.insert(id, added_fields(a))]
                !m.contains_key(id) && b.tasks_service.rows() == m.insert(id, added_fields(a))
        }
    }
}

/// Whether `b` and `r` are what toggling the selected task's completed flag in `a` gives.
pub open spec fn toggles_status(a: AppContext, b: AppContext, r: Result<(), TaskError>) -> bool {
    &&& a.task_list.selected is None ==> r is Ok && b == a
    &&& a.task_list.selected matches Some(i) ==> {
        let t = selected_task(a);
        let m = a.tasks_service.rows();
        &&& r is Ok ==> {
            &&& b.tasks_service.rows() == rows_updated(
                m,
                t.id as int,
                with_completed(m[t.id as int], !t.completed),
            )
            &&& m.contains_key(t.id as int) ==> patched(
                a.task_list.items@,
                b.task_list.items@,
                i as int,
                |a: Task, b: Task| toggled(a, b),
            )
            &&& !m.contains_key(t.id as int) ==> b.task_list.items@ == a.task_list.items@
            &&& b.task_list.selected == a.task_list.selected
            &&& b.same_session_but_buffers(&a)
        }
        &&& r is Err ==> b.error is Some && b.tasks_service.rows() == m && (b.task_list.items@
            == a.task_list.items@ || lists_tasks(m, b.task_list.items@, RowOrder::PriorityDesc))
    }
    &&& b.same_buffers(&a)
}

/// Whether `b` and `r` are what moving the selected task to the next priority in `a` gives.
pub open spec fn cycles_priority(a: AppContext, b: AppContext, r: Result<(), TaskError>) -> bool {
    &&& a.task_list.selected is None ==> r is Ok && b == a
    &&& a.task_list.selected matches Some(i) ==> {
        let t = selected_task(a);
        let m = a.tasks_service.rows();
        &&& r is Ok ==> {
            &&& b.tasks_service.rows() == rows_updated(
                m,
                t.id as int,
                with_priority(m[t.id as int], t.priority.spec_next().rank() as int),
            )
            &&& m.contains_key(t.id as int) ==> patched(
                a.task_list.items@,
                b.task_list.items@,
                i as int,
                |a: Task, b: Task| reprioritized(a, b),
            )
            &&& !m.contains_key(t.id as int) ==> b.task_list.items@ == a.task_list.items@
            &&& b.task_list.selected == a.task_list.selected
            &&& b.same_session_but_buffers(&a)
        }
        &&& r is Err ==> b.error is Some && b.tasks_service.rows() == m && (b.task_list.items@
            == a.task_list.items@ || lists_tasks(m, b.task_list.items@, RowOrder::PriorityDesc))
    }
    &&& b.same_buffers(&a)
}

/// Whether `b` and `r` are what starting to edit the selected task in `a` gives.
pub open spec fn starts_edit(a: AppContext, b: AppContext, r: Result<(), TaskError>) -> bool {
    &&& r is Ok
    &&& a.task_list.selected is None ==> b == a
    &&& a.task_list.selected is Some ==> {
        let t = selected_task(a);
        &&& b.input_mode == InputMode::EditingExisting
        &&& b.input_field == InputFieldType::Title
        &&& b.input_title@ == t.title@
        &&& b.input_description@ == t.description@
        &&& b.input_date@ == match t.date {
            Some(d) => d.text(),
            None => Seq::<char>::empty(),
        }
        &&& b.error is None
        &&& b.show_help == a.show_help
        &&& b.same_tasks(&a)
    }
}

/// Whether `b` and `r` are what confirming an edit in `a` gives.
pub open spec fn finishes_edit(a: AppContext, b: AppContext, r: Result<(), TaskError>) -> bool {
    &&& a.input_title@.len() == 0 || a.task_list.selected is None ==> r is Ok && b == a
    &&& a.task_list.selected matches Some(i) ==> (a.input_title@.len() > 0 ==> {
        let t = selected_task(a);
        let m = a.tasks_service.rows();
        &&& r == Err::<(), TaskError>(TaskError::InvalidDate) <==> !date_input_ok(a.input_date@)
        &&& r is Ok ==> {
            &&& b.tasks_service.rows() == rows_updated(
                m,
                t.id as int,
                edited_fields(a, t),
            )
            &&& m.contains_key(t.id as int) ==> {
                &&& b.task_list.items@.len() == a.task_list.items@.len()
                &&& b.task_list.items@[i as int].id == t.id
                &&& crate::task_manager::task_fields(b.task_list.items@[i as int])
                    == edited_fields(a, t)
                &&& forall|j: int|
                    0 <= j < a.task_list.items@.len() && j != i
                        ==> b.task_list.items@[j] == a.task_list.items@[j]
            }
            &&& !m.contains_key(t.id as int) ==> b.task_list.items@ == a.task_list.items@
            &&& b.task_list.selected == a.task_list.selected
            &&& b.input_mode == InputMode::View
            &&& b.buffers_empty()
            &&& b.error is None
        }
        &&& r is Err ==> failed_keeping_input(a, b)
    })
}

/// Whether `b` and `r` are what deleting the selected task in `a` gives.
pub open spec fn deletes_task(a: AppContext, b: AppContext, r: Result<(), TaskError>) -> bool {
    &&& a.task_list.selected is None ==> r is Ok && b == a
    &&& a.task_list.selected matches Some(i) ==> {
        let t = selected_task(a);
        let m = a.tasks_service.rows();
        &&& r is Ok ==> {
            &&& b.tasks_service.rows() == m.remove(t.id as int)
            &&& m.contains_key(t.id as int) ==> {
                &&& b.task_list.items@ == a.task_list.items@.remove(i as int)
                &&& b.task_list.selected == selection_after_removal(i, b.task_list.items@.len())
            }
            &&& !m.contains_key(t.id as int) ==> {
                &&& b.task_list.items@ == a.task_list.items@
                &&& b.task_list.selected == a.task_list.selected
            }
            &&& b.same_session_but_buffers(&a)
        }
        &&& r is Err ==> b.error is Some && b.tasks_service.rows() == m
            && b.task_list.items@ == a.task_list.items@
    }
    &&& b.same_buffers(&a)
}

/// Whether `b` and `r` are what cancelling in `a` gives: browsing, empty buffers, no error,
/// and the list and the store untouched.
pub open spec fn stops_editing(a: AppContext, b: AppContext, r: Result<(), TaskError>) -> bool {
    &&& r is Ok
    &&& b.input_mode == InputMode::View
    &&& b.input_field == a.input_field
    &&& b.buffers_empty()
    &&& b.error is None
    &&& b.show_help == a.show_help
    &&& b.same_tasks(&a)
}

/// The due date typed into the date field: none where the field is empty.
pub fn date_from_input(text: &String) -> (r: Result<Option<Date>, TaskError>)
    ensures
        r is Ok <==> date_input_ok(text@),
        r matches Ok(d) ==> match d {
            Some(d) => d.wf() && date_field(text@) == Some(d.text()),
            None => date_field(text@) is None,
        },
        r matches Err(e) ==> e == TaskError::InvalidDate,
{
    if text.as_str().is_empty() {
        return Ok(None);
    }
    match Date::parse(text.as_str()) {
        Some(d) => Ok(Some(d)),
        None => Err(TaskError::InvalidDate),
    }
}

fn record_error(app: &mut AppContext, e: &TaskError)
    requires
        old(app).wf(),
    ensures
        final(app).wf(),
        final(app).error is Some,
        final(app).input_mode == old(app).input_mode,
        final(app).input_field == old(app).input_field,
        final(app).show_help == old(app).show_help,
        final(app).same_buffers(old(app)),
        final(app).same_tasks(old(app)),
{
    app.error = Some(e.message());
}

/// Enters the adding mode with empty buffers and the title field active.
pub struct EnterEditModeCommand;

impl Command for EnterEditModeCommand {
    fn execute(&mut self, app: &mut AppContext) -> (r: Result<(), TaskError>)
        ensures
            enters_add_mode(*old(app), *final(app), r),

    {
        let _ = app.drain_buffers();
        app.input_mode = InputMode::Adding;
        app.input_field = InputFieldType::Title;
        Ok(())
    }
}

/// Confirms a new task: stores a task made of the three buffers, lists the tasks again and
/// goes back to browsing. With an empty title it does nothing; on failure the editor stays as
/// it was, showing the error.
pub struct AddTaskCommand;

impl Command for AddTaskCommand {
    fn execute(&mut self, app: &mut AppContext) -> (r: Result<(), TaskError>)
        ensures
            adds_task(*old(app), *final(app), r),

    {
        if app.input_title.as_str().is_empty() {
            return Ok(());
        }
        let date = match date_from_input(&app.input_date) {
            Ok(d) => d,
            Err(e) => {
                record_error(app, &e);
                return Err(e);
            },
        };
        let ghost before = *app;
        let task = Task {
            id: 0,
            title: app.input_title.clone(),
            description: app.input_description.clone(),
            completed: false,
            priority: Priority::Low,
            date,
        };
        let id = match app.tasks_service.add_new_task(&task) {
            Ok(id) => id,
            Err(e) => {
                record_error(app, &e);
                return Err(e);
            },
        };
        let ghost rows = app.tasks_service.rows();
        proof {
            assert(crate::task_manager::task_fields(task) == added_fields(before));
            assert(rows == before.tasks_service.rows().insert(id as int, added_fields(before)));
        }
        match app.refresh_task_list() {
            Ok(()) => {},
            Err(e) => {
                if id < i32::MIN as i64 || id > i32::MAX as i64 {
                    record_error(app, &e);
                    return Err(e);
                }
                let mut added = task;
                added.id = id as i32;
                app.task_list.items.push(added);
                proof {
                    assert(app.task_list.items@.drop_last() == before.task_list.items@);
                    assert(appends_new_task(
                        before.task_list.items@,
                        app.task_list.items@,
                        id as int,
                        added_fields(before),
                    ));
                }
            },
        }
        let _ = app.drain_buffers();
        app.input_mode = InputMode::View;
        app.error = None;
        Ok(())
    }
}

/// Flips the completed flag of the selected task, in the store and then in the list.
pub struct ToggleTaskStatusCommand;

impl Command for ToggleTaskStatusCommand {
    fn execute(&mut self, app: &mut AppContext) -> (r: Result<(), TaskError>)
        ensures
            toggles_status(*old(app), *final(app), r),

    {
        let i = match app.task_list.selected {
            Some(i) => i,
            None => return Ok(()),
        };
        let mut t = app.task_list.items[i].duplicate();
        let flipped = !t.completed;
        match app.tasks_service.toggle_task_completed(t.id, flipped) {
            Ok(n) => {
                if n == 1 {
                    t.completed = flipped;
                    app.task_list.items.set(i, t);
                }
                Ok(())
            },
            Err(e) => {
                let _ = app.refresh_task_list();
                record_error(app, &e);
                Err(e)
            },
        }
    }
}

/// Moves the selected task to the next priority of the cycle, in the store and then in the
/// list.
pub struct ToggleItemPriorityCommand;

impl Command for ToggleItemPriorityCommand {
    fn execute(&mut self, app: &mut AppContext) -> (r: Result<(), TaskError>)
        ensures
            cycles_priority(*old(app), *final(app), r),

    {
        let i = match app.task_list.selected {
            Some(i) => i,
            None => return Ok(()),
        };
        let mut t = app.task_list.items[i].duplicate();
        let next = t.priority.next();
        match app.tasks_service.change_priortiy(t.id, next) {
            Ok(n) => {
                if n == 1 {
                    t.priority = next;
                    app.task_list.items.set(i, t);
                }
                Ok(())
            },
            Err(e) => {
                let _ = app.refresh_task_list();
                record_error(app, &e);
                Err(e)
            },
        }
    }
}

/// Starts editing the selected task: its title, description and due date fill the buffers.
pub struct StartEditingExistingTaskCommand;

impl Command for StartEditingExistingTaskCommand {
    fn execute(&mut self, app: &mut AppContext) -> (r: Result<(), TaskError>)
        ensures
            starts_edit(*old(app), *final(app), r),

    {
        let i = match app.task_list.selected {
            Some(i) => i,
            None => return Ok(()),
        };
        app.input_title = app.task_list.items[i].title.clone();
        app.input_description = app.task_list.items[i].description.clone();
        app.input_date = match &app.task_list.items[i].date {
            Some(d) => d.to_text(),
            None => String::new(),
        };
        app.input_mode = InputMode::EditingExisting;
        app.input_field = InputFieldType::Title;
        app.error = None;
        Ok(())
    }
}

/// Confirms the edit of the selected task: the buffers are written into it, in the store and
/// then in the list, and browsing resumes.
pub struct FinishEditingExistingTaskCommand;

impl Command for FinishEditingExistingTaskCommand {
    fn execute(&mut self, app: &mut AppContext) -> (r: Result<(), TaskError>)
        ensures
            finishes_edit(*old(app), *final(app), r),

    {
        if app.input_title.as_str().is_empty() {
            return Ok(());
        }
        let i = match app.task_list.selected {
            Some(i) => i,
            None => return Ok(()),
        };
        let date = match date_from_input(&app.input_date) {
            Ok(d) => d,
            Err(e) => {
                record_error(app, &e);
                return Err(e);
            },
        };
        let old_task = app.task_list.items[i].duplicate();
        let edited = Task {
            id: old_task.id,
            title: app.input_title.clone(),
            description: app.input_description.clone(),
            completed: old_task.completed,
            priority: old_task.priority,
            date,
        };
        match app.tasks_service.update_task(&edited) {
            Ok(n) => {
                if n == 1 {
                    app.task_list.items.set(i, edited);
                }
            },
            Err(e) => {
                record_error(app, &e);
                return Err(e);
            },
        }
        let _ = app.drain_buffers();
        app.input_mode = InputMode::View;
        app.error = None;
        Ok(())
    }
}

/// Deletes the selected task from the store, and then from the list where the store had it.
pub struct DeleteTaskCommand;

impl Command for DeleteTaskCommand {
    fn execute(&mut self, app: &mut AppContext) -> (r: Result<(), TaskError>)
        ensures
            deletes_task(*old(app), *final(app), r),

    {
        let i = match app.task_list.selected {
            Some(i) => i,
            None => return Ok(()),
        };
        let id = app.task_list.items[i].id;
        match app.tasks_service.delete_task(id) {
            Ok(n) => {
                if n == 1 {
                    let _ = app.task_list.items.remove(i);
                    let len = app.task_list.items.len();
                    app.task_list.selected = if i < len {
                        Some(i)
                    } else if len > 0 {
                        Some(len - 1)
                    } else {
                        None
                    };
                }
                Ok(())
            },
            Err(e) => {
                record_error(app, &e);
                Err(e)
            },
        }
    }
}

/// Stops adding or editing: the buffers and the error are cleared and browsing resumes.
pub struct StopEditingCommand;

impl Command for StopEditingCommand {
    fn execute(&mut self, app: &mut AppContext) -> (r: Result<(), TaskError>)
        ensures
            stops_editing(*old(app), *final(app), r),

    {
        let _ = app.drain_buffers();
        app.input_mode = InputMode::View;
        app.error = None;
        Ok(())
    }
}

/// Moving a task to the next priority three times gives back the task as it was; the
/// priority cycle stays within Low, Medium and High.
pub proof fn lemma_three_priority_changes(a: Task, b: Task, c: Task, d: Task)
    requires
        reprioritized(a, b),
        reprioritized(b, c),
        reprioritized(c, d),
    ensures
        d == a,
        d.priority == a.priority,
{
    crate::task::lemma_priority_cycle(a.priority);
}

/// Entering the adding mode and cancelling at once leaves the store, and so its count, and the
/// list as they were, and the session browsing with empty buffers and no error.
pub proof fn lemma_add_then_cancel(a: AppContext, b: AppContext, c: AppContext)
    requires
        enters_add_mode(a, b, Ok(())),
        stops_editing(b, c, Ok(())),
    ensures
        c.tasks_service == a.tasks_service,
        c.tasks_service.rows() == a.tasks_service.rows(),
        c.tasks_service.rows().dom().len() == a.tasks_service.rows().dom().len(),
        c.task_list.items@ == a.task_list.items@,
        c.task_list.selected == a.task_list.selected,
        c.input_mode == InputMode::View,
        c.buffers_empty(),
        c.error is None,
{
}

} // verus!
