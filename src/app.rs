use vstd::prelude::*;

use crate::task::Task;
use crate::task_db::RowOrder;
use crate::task_manager::{lemma_listed_tasks_wf, lists_tasks, SortOrder, TaskError, TasksService};

verus! {

/// Relies on `String::push`: the character is appended.
pub assume_specification[ String::push ](s: &mut String, ch: char)
    ensures
        final(s)@ == old(s)@.push(ch),
;

/// Relies on `String::pop`: the last character, if any, is removed and returned.
pub assume_specification[ String::pop ](s: &mut String) -> (r: Option<char>)
    ensures
        old(s)@.len() == 0 ==> r is None && final(s)@ == old(s)@,
        old(s)@.len() > 0 ==> r == Some(old(s)@.last()) && final(s)@ == old(s)@.drop_last(),
;

/// The tasks on screen and which of them, if any, is selected.
pub struct TaskList {
    pub items: Vec<Task>,
    pub selected: Option<usize>,
}

impl TaskList {
    /// A selection, if any, points into the list, and every task holds storable values.
    pub open spec fn wf(&self) -> bool {
        &&& (self.selected matches Some(i) ==> i < self.items.len())
        &&& forall|i: int| 0 <= i < self.items.len() ==> (#[trigger] self.items[i]).wf()
    }

    pub fn new() -> (r: TaskList)
        ensures
            r.items@.len() == 0,
            r.selected is None,
            r.wf(),
    {
        TaskList { items: Vec::new(), selected: None }
    }
}

/// What the editor is doing.
#[derive(Debug, Clone, Copy, PartialEq, Eq, Structural)]
pub enum InputMode {
    /// Browsing the list.
    View,
    /// Typing a new task.
    Adding,
    /// Changing the selected task.
    EditingExisting,
}

/// The input field that typed characters go to.
#[derive(Debug, Clone, Copy, PartialEq, Eq, Structural)]
pub enum InputFieldType {
    Title,
    Description,
    Date,
}

impl InputFieldType {
    /// The field after `self` in the cycle `Title -> Description -> Date -> Title`.
    pub open spec fn spec_next(self) -> InputFieldType {
        match self {
            InputFieldType::Title => InputFieldType::Description,
            InputFieldType::Description => InputFieldType::Date,
            InputFieldType::Date => InputFieldType::Title,
        }
    }
}

/// The selection after `sel` moves one down a list of `len` tasks.
pub open spec fn selection_after_next(sel: Option<usize>, len: nat) -> Option<usize> {
    if len == 0 {
        None
    } else {
        match sel {
            None => Some(0),
            Some(i) => Some(if i + 1 < len { (i + 1) as usize } else { (len - 1) as usize }),
        }
    }
}

/// The selection after `sel` moves one up a list of `len` tasks; from no selection, the last.
pub open spec fn selection_after_previous(sel: Option<usize>, len: nat) -> Option<usize> {
    if len == 0 {
        None
    } else {
        match sel {
            None => Some((len - 1) as usize),
            Some(i) => Some(if i > 0 { (i - 1) as usize } else { 0 }),
        }
    }
}

/// The selection `sel` kept where it still points into a list of `len` tasks, else dropped.
pub open spec fn selection_within(sel: Option<usize>, len: nat) -> Option<usize> {
    match sel {
        Some(i) => if i < len {
            Some(i)
        } else {
            None
        },
        None => None,
    }
}

/// Whether `b` is `a` with the selection `sel` and nothing else changed.
pub open spec fn moves_selection(a: AppContext, b: AppContext, sel: Option<usize>) -> bool {
    &&& b.task_list.selected == sel
    &&& b.task_list.items@ == a.task_list.items@
    &&& b.tasks_service == a.tasks_service
    &&& b.same_session_but_buffers(&a)
    &&& b.same_buffers(&a)
}

/// Whether `b` is `a` with input moved to the next field.
pub open spec fn advances_field(a: AppContext, b: AppContext) -> bool {
    &&& b.input_field == a.input_field.spec_next()
    &&& b.input_mode == a.input_mode
    &&& b.show_help == a.show_help
    &&& b.error == a.error
    &&& b.same_buffers(&a)
    &&& b.same_tasks(&a)
}

/// Whether `b` is `a` with the active field's text changed to `text` and nothing else.
pub open spec fn edits_active_buffer(a: AppContext, b: AppContext, text: Seq<char>) -> bool {
    &&& b.buffer(a.input_field) == text
    &&& forall|f: InputFieldType| f != a.input_field ==> b.buffer(f) == a.buffer(f)
    &&& b.same_session_but_buffers(&a)
    &&& b.same_tasks(&a)
}

/// Whether `b` is `a` with the last character of the active field's text, if any, removed.
pub open spec fn erases_char(a: AppContext, b: AppContext) -> bool {
    edits_active_buffer(a, b, if a.buffer(a.input_field).len() == 0 {
        a.buffer(a.input_field)
    } else {
        a.buffer(a.input_field).drop_last()
    })
}

/// Whether `b` and `r` are what listing the tasks again by priority in `a` gives: on success
/// the stored tasks, highest priority first; on failure an error shown and the list as it was.
pub open spec fn sorts_view(a: AppContext, b: AppContext, r: Result<(), TaskError>) -> bool {
    &&& b.tasks_service == a.tasks_service
    &&& b.input_mode == a.input_mode
    &&& b.input_field == a.input_field
    &&& b.show_help == a.show_help
    &&& b.same_buffers(&a)
    &&& r is Ok ==> {
        &&& lists_tasks(a.tasks_service.rows(), b.task_list.items@, RowOrder::PriorityDesc)
        &&& b.task_list.selected == selection_within(a.task_list.selected, b.task_list.items@.len())
        &&& b.error == a.error
    }
    &&& r is Err ==> b.same_tasks(&a) && b.error is Some
}

/// The state of the program: the task list, the editing session and the store.
pub struct AppContext {
    pub task_list: TaskList,
    pub input_title: String,
    pub input_description: String,
    pub input_date: String,
    pub input_mode: InputMode,
    pub input_field: InputFieldType,
    pub tasks_service: TasksService,
    pub show_help: bool,
    pub error: Option<String>,
}

impl AppContext {
    pub open spec fn wf(&self) -> bool {
        self.task_list.wf() && self.tasks_service.wf()
    }

    /// The text typed into a field.
    pub open spec fn buffer(&self, f: InputFieldType) -> Seq<char> {
        match f {
            InputFieldType::Title => self.input_title@,
            InputFieldType::Description => self.input_description@,
            InputFieldType::Date => self.input_date@,
        }
    }

    /// Whether every field of the editing session but the three buffers is as in `other`.
    pub open spec fn same_session_but_buffers(&self, other: &AppContext) -> bool {
        &&& self.input_mode == other.input_mode
        &&& self.input_field == other.input_field
        &&& self.show_help == other.show_help
        &&& self.error == other.error
    }

    /// Whether the task list and the store are as in `other`.
    pub open spec fn same_tasks(&self, other: &AppContext) -> bool {
        &&& self.task_list.items@ == other.task_list.items@
        &&& self.task_list.selected == other.task_list.selected
        &&& self.tasks_service == other.tasks_service
    }

    /// Whether the three buffers are as in `other`.
    pub open spec fn same_buffers(&self, other: &AppContext) -> bool {
        &&& self.input_title@ == other.input_title@
        &&& self.input_description@ == other.input_description@
        &&& self.input_date@ == other.input_date@
    }

    /// Whether the three buffers are empty.
    pub open spec fn buffers_empty(&self) -> bool {
        &&& self.input_title@.len() == 0
        &&& self.input_description@.len() == 0
        &&& self.input_date@.len() == 0
    }

    /// Opens the store at `db_path` (in memory where it is empty) with an empty list, browsing.
    pub fn new(db_path: String) -> (r: Result<AppContext, TaskError>)
        ensures
            r matches Ok(app) ==> {
                &&& app.wf()
                &&& app.task_list.items@.len() == 0
                &&& app.task_list.selected is None
                &&& app.buffers_empty()
                &&& app.input_mode == InputMode::View
                &&& app.input_field == InputFieldType::Title
                &&& !app.show_help
                &&& app.error is None
            },
            r matches Ok(app) ==> (db_path@.len() == 0 ==> app.tasks_service.rows().dom().len() == 0),
            r matches Err(e) ==> e is Storage,
    {
        let tasks_service = match TasksService::new(&db_path) {
            Ok(s) => s,
            Err(e) => return Err(e),
        };
        Ok(
            AppContext {
                task_list: TaskList::new(),
                input_title: String::new(),
                input_description: String::new(),
                input_date: String::new(),
                input_mode: InputMode::View,
                input_field: InputFieldType::Title,
                tasks_service,
                show_help: false,
                error: None,
            },
        )
    }

    /// Lists the stored tasks again, highest priority first; a selection is kept where it
    /// still points into the list. On failure nothing changes.
    pub fn refresh_task_list(&mut self) -> (r: Result<(), TaskError>)
        requires
            old(self).wf(),
        ensures
            final(self).wf(),
            final(self).tasks_service == old(self).tasks_service,
            final(self).same_session_but_buffers(old(self)),
            final(self).same_buffers(old(self)),
            r is Ok ==> lists_tasks(
                old(self).tasks_service.rows(),
                final(self).task_list.items@,
                RowOrder::PriorityDesc,
            ) && final(self).task_list.selected == selection_within(
                old(self).task_list.selected,
                final(self).task_list.items@.len(),
            ),
            r is Err ==> final(self).same_tasks(old(self)),
            r matches Err(e) ==> e is Storage || e is UnreadableRow,
    {
        match self.tasks_service.get_all_tasks_sorted(SortOrder::High) {
            Ok(items) => {
                proof {
                    lemma_listed_tasks_wf(self.tasks_service.rows(), items@, RowOrder::PriorityDesc);
                }
                let sel = match self.task_list.selected {
                    Some(i) => if i < items.len() {
                        Some(i)
                    } else {
                        None
                    },
                    None => None,
                };
                self.task_list = TaskList { items, selected: sel };
                Ok(())
            },
            Err(e) => Err(e),
        }
    }

    /// Lists the tasks by priority, highest first, as the store orders them; tasks of equal
    /// priority in the order in which they were stored. A failure is shown as the error.
    pub fn sort_by_priority(&mut self) -> (r: Result<(), TaskError>)
        requires
            old(self).wf(),
        ensures
            final(self).wf(),
            sorts_view(*old(self), *final(self), r),
    {
        match self.refresh_task_list() {
            Ok(()) => Ok(()),
            Err(e) => {
                self.error = Some(e.message());
                Err(e)
            },
        }
    }

    pub fn select_none(&mut self)
        requires
            old(self).wf(),
        ensures
            final(self).wf(),
            moves_selection(*old(self), *final(self), None),
    {
        self.task_list.selected = None;
    }

    /// Selects the next task: the first where none is selected; the last stays selected.
    pub fn select_next(&mut self)
        requires
            old(self).wf(),
        ensures
            final(self).wf(),
            moves_selection(
                *old(self),
                *final(self),
                selection_after_next(old(self).task_list.selected, old(self).task_list.items@.len()),
            ),
    {
        let len = self.task_list.items.len();
        self.task_list.selected = if len == 0 {
            None
        } else {
            match self.task_list.selected {
                None => Some(0),
                Some(i) => Some(if i + 1 < len { i + 1 } else { len - 1 }),
            }
        };
    }

    /// Selects the previous task: the last where none is selected; the first stays selected.
    pub fn select_previous(&mut self)
        requires
            old(self).wf(),
        ensures
            final(self).wf(),
            moves_selection(
                *old(self),
                *final(self),
                selection_after_previous(old(self).task_list.selected, old(self).task_list.items@.len()),
            ),
    {
        let len = self.task_list.items.len();
        self.task_list.selected = if len == 0 {
            None
        } else {
            match self.task_list.selected {
                None => Some(len - 1),
                Some(i) => Some(if i > 0 { i - 1 } else { 0 }),
            }
        };
    }

    /// Selects the first task, if there is one.
    pub fn select_first(&mut self)
        requires
            old(self).wf(),
        ensures
            final(self).wf(),
            moves_selection(
                *old(self),
                *final(self),
                if old(self).task_list.items@.len() == 0 {
                    None
                } else {
                    Some(0usize)
                },
            ),
    {
        self.task_list.selected = if self.task_list.items.len() == 0 {
            None
        } else {
            Some(0)
        };
    }

    /// Selects the last task, if there is one.
    pub fn select_last(&mut self)
        requires
            old(self).wf(),
        ensures
            final(self).wf(),
            moves_selection(
                *old(self),
                *final(self),
                if old(self).task_list.items@.len() == 0 {
                    None
                } else {
                    Some((old(self).task_list.items@.len() - 1) as usize)
                },
            ),
    {
        let len = self.task_list.items.len();
        self.task_list.selected = if len == 0 {
            None
        } else {
            Some(len - 1)
        };
    }

    /// Moves input to the next field: Title, Description, Date, and round to Title.
    pub fn next_input_field(&mut self)
        requires
            old(self).wf(),
        ensures
            final(self).wf(),
            advances_field(*old(self), *final(self)),
    {
        self.input_field = match self.input_field {
            InputFieldType::Title => InputFieldType::Description,
            InputFieldType::Description => InputFieldType::Date,
            InputFieldType::Date => InputFieldType::Title,
        }
    }

    /// Removes the last character of the active field's text, if there is one.
    pub fn handle_backspace(&mut self)
        requires
            old(self).wf(),
        ensures
            final(self).wf(),
            erases_char(*old(self), *final(self)),
    {
        match self.input_field {
            InputFieldType::Title => {
                self.input_title.pop();
            },
            InputFieldType::Description => {
                self.input_description.pop();
            },
            InputFieldType::Date => {
                self.input_date.pop();
            },
        }
    }

    /// Appends a typed character to the active field's text.
    pub fn handle_char_input(&mut self, c: char)
        requires
            old(self).wf(),
        ensures
            final(self).wf(),
            edits_active_buffer(*old(self), *final(self), old(self).buffer(old(self).input_field).push(c)),
    {
        match self.input_field {
            InputFieldType::Title => self.input_title.push(c),
            InputFieldType::Description => self.input_description.push(c),
            InputFieldType::Date => self.input_date.push(c),
        }
    }

    /// Empties the three buffers and hands back their texts: title, description, date.
    pub fn drain_buffers(&mut self) -> (r: (String, String, String))
        requires
            old(self).wf(),
        ensures
            final(self).wf(),
            r.0@ == old(self).input_title@,
            r.1@ == old(self).input_description@,
            r.2@ == old(self).input_date@,
            final(self).buffers_empty(),
            final(self).same_session_but_buffers(old(self)),
            final(self).same_tasks(old(self)),
    {
        let mut title = String::new();
        let mut description = String::new();
        let mut date = String::new();
        std::mem::swap(&mut self.input_title, &mut title);
        std::mem::swap(&mut self.input_description, &mut description);
        std::mem::swap(&mut self.input_date, &mut date);
        (title, description, date)
    }
}

} // verus!
