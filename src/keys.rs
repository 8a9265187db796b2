use vstd::prelude::*;

use crate::app::{
    advances_field, edits_active_buffer, erases_char, moves_selection, selection_after_next,
    selection_after_previous, sorts_view, AppContext, InputMode,
};
use crate::command::{
    adds_task, cycles_priority, deletes_task, enters_add_mode, finishes_edit, starts_edit,
    stops_editing, toggles_status, AddTaskCommand, Command, DeleteTaskCommand,
    EnterEditModeCommand, FinishEditingExistingTaskCommand, StartEditingExistingTaskCommand,
    StopEditingCommand, ToggleItemPriorityCommand, ToggleTaskStatusCommand,
};
use crate::task_manager::TaskError;

verus! {

/// A key that the user pressed.
#[derive(Debug, Clone, Copy, PartialEq, Eq, Structural)]
pub enum Key {
    Char(char),
    Enter,
    Tab,
    Backspace,
    Esc,
    Up,
    Down,
    Other,
}

/// Whether `b` and `r` are what `key` does while browsing: `a` adds, the arrows move the
/// selection, space toggles the completed flag, `m` edits, `p` cycles the priority, `s`
/// sorts, `d` deletes; any other key does nothing.
pub open spec fn view_key_effect(key: Key, a: AppContext, b: AppContext, r: Result<(), TaskError>) -> bool {
    match key {
        Key::Char('a') => enters_add_mode(a, b, r),
        Key::Down => r is Ok && moves_selection(a, b, selection_after_next(a.task_list.selected, a.task_list.items@.len())),
        Key::Up => r is Ok && moves_selection(a, b, selection_after_previous(a.task_list.selected, a.task_list.items@.len())),
        Key::Char(' ') => toggles_status(a, b, r),
        Key::Char('m') => starts_edit(a, b, r),
        Key::Char('p') => cycles_priority(a, b, r),
        Key::Char('s') => sorts_view(a, b, r),
        Key::Char('d') => deletes_task(a, b, r),
        _ => r is Ok && b == a,
    }
}

/// Whether `b` and `r` are what `key` does while typing: Enter confirms with `confirm`, Tab
/// moves to the next field, a character is typed, Backspace erases, Esc cancels; any other key
/// does nothing.
pub open spec fn input_key_effect(
    key: Key,
    a: AppContext,
    b: AppContext,
    r: Result<(), TaskError>,
    confirm: spec_fn(AppContext, AppContext, Result<(), TaskError>) -> bool,
) -> bool {
    match key {
        Key::Enter => confirm(a, b, r),
        Key::Tab => r is Ok && advances_field(a, b),
        Key::Char(c) => r is Ok && edits_active_buffer(a, b, a.buffer(a.input_field).push(c)),
        Key::Backspace => r is Ok && erases_char(a, b),
        Key::Esc => stops_editing(a, b, r),
        _ => r is Ok && b == a,
    }
}

/// Carries out a key pressed while browsing.
pub fn handle_key_event_view_mode(key: Key, app: &mut AppContext) -> (r: Result<(), TaskError>)
    requires
        old(app).wf(),
    ensures
        final(app).wf(),
        view_key_effect(key, *old(app), *final(app), r),
{
    match key {
        Key::Char('a') => EnterEditModeCommand.execute(app),
        Key::Down => {
            app.select_next();
            Ok(())
        },
        Key::Up => {
            app.select_previous();
            Ok(())
        },
        Key::Char(' ') => ToggleTaskStatusCommand.execute(app),
        Key::Char('m') => StartEditingExistingTaskCommand.execute(app),
        Key::Char('p') => ToggleItemPriorityCommand.execute(app),
        Key::Char('s') => app.sort_by_priority(),
        Key::Char('d') => DeleteTaskCommand.execute(app),
        _ => Ok(()),
    }
}

/// Carries out a key pressed while typing a new task.
pub fn handle_key_event_adding_mode(key: Key, app: &mut AppContext) -> (r: Result<(), TaskError>)
    requires
        old(app).wf(),
    ensures
        final(app).wf(),
        input_key_effect(key, *old(app), *final(app), r, |a, b, r| adds_task(a, b, r)),
{
    match key {
        Key::Enter => AddTaskCommand.execute(app),
        Key::Tab => {
            app.next_input_field();
            Ok(())
        },
        Key::Char(c) => {
            app.handle_char_input(c);
            Ok(())
        },
        Key::Backspace => {
            app.handle_backspace();
            Ok(())
        },
        Key::Esc => StopEditingCommand.execute(app),
        _ => Ok(()),
    }
}

/// Carries out a key pressed while editing the selected task.
pub fn handle_key_event_editing_existing_mode(key: Key, app: &mut AppContext) -> (r: Result<
    (),
    TaskError,
>)
    requires
        old(app).wf(),
    ensures
        final(app).wf(),
        input_key_effect(key, *old(app), *final(app), r, |a, b, r| finishes_edit(a, b, r)),
{
    match key {
        Key::Enter => FinishEditingExistingTaskCommand.execute(app),
        Key::Tab => {
            app.next_input_field();
            Ok(())
        },
        Key::Char(c) => {
            app.handle_char_input(c);
            Ok(())
        },
        Key::Backspace => {
            app.handle_backspace();
            Ok(())
        },
        Key::Esc => StopEditingCommand.execute(app),
        _ => Ok(()),
    }
}

/// What the program does after a key.
#[derive(Debug, Clone, Copy, PartialEq, Eq, Structural)]
pub enum Flow {
    Continue,
    Quit,
}

/// Whether `b` and `r` are what `key` does in `a`, in the mode the editor is in. While
/// browsing, `q` quits, `h` shows or hides the help, and Esc hides it.
pub open spec fn handles_key(a: AppContext, b: AppContext, key: Key, r: (Flow, Result<(), TaskError>)) -> bool {
    &&& r.0 == Flow::Quit <==> a.input_mode == InputMode::View && key == Key::Char('q')
    &&& a.input_mode == InputMode::View ==> match key {
        Key::Char('q') => b == a && r.1 is Ok,
        Key::Char('h') => r.1 is Ok && b == (AppContext { show_help: !a.show_help, ..a }),
        Key::Esc => r.1 is Ok && b == (AppContext { show_help: false, ..a }),
        _ => view_key_effect(key, a, b, r.1),
    }
    &&& a.input_mode == InputMode::Adding ==> input_key_effect(key, a, b, r.1, |a, b, r| adds_task(a, b, r))
    &&& a.input_mode == InputMode::EditingExisting ==> input_key_effect(
        key,
        a,
        b,
        r.1,
        |a, b, r| finishes_edit(a, b, r),
    )
}

/// Carries out a key in the mode the editor is in. While browsing, `q` quits, `h` shows or
/// hides the help, and Esc hides it; the failure of a command, if any, is handed back.
pub fn handle_key(app: &mut AppContext, key: Key) -> (r: (Flow, Result<(), TaskError>))
    requires
        old(app).wf(),
    ensures
        final(app).wf(),
        handles_key(*old(app), *final(app), key, r),
{
    match app.input_mode {
        InputMode::View => match key {
            Key::Char('q') => (Flow::Quit, Ok(())),
            Key::Char('h') => {
                app.show_help = !app.show_help;
                (Flow::Continue, Ok(()))
            },
            Key::Esc => {
                app.show_help = false;
                (Flow::Continue, Ok(()))
            },
            _ => (Flow::Continue, handle_key_event_view_mode(key, app)),
        },
        InputMode::Adding => (Flow::Continue, handle_key_event_adding_mode(key, app)),
        InputMode::EditingExisting => (
            Flow::Continue,
            handle_key_event_editing_existing_mode(key, app),
        ),
    }
}

} // verus!
