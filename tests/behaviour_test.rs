use task_rustler::app::{AppContext, InputFieldType, InputMode};
use task_rustler::command::{
    AddTaskCommand, Command, DeleteTaskCommand, EnterEditModeCommand,
    FinishEditingExistingTaskCommand, StartEditingExistingTaskCommand, StopEditingCommand,
    ToggleItemPriorityCommand, ToggleTaskStatusCommand,
};
use task_rustler::date::Date;
use task_rustler::export::export_tasks_to_icalendar;
use task_rustler::keys::{handle_key, Flow, Key};
use task_rustler::task::{Priority, Task};
use task_rustler::task_db::TaskRow;
use task_rustler::task_manager::{task_from_row, tasks_from_rows, SortOrder, TaskError, TasksService};

fn new_app() -> AppContext {
    AppContext::new(String::new()).unwrap()
}

fn type_text(app: &mut AppContext, text: &str) {
    for c in text.chars() {
        app.handle_char_input(c);
    }
}

fn add_through_editor(app: &mut AppContext, title: &str, description: &str, date: &str) -> Result<(), TaskError> {
    EnterEditModeCommand.execute(app).unwrap();
    type_text(app, title);
    app.next_input_field();
    type_text(app, description);
    app.next_input_field();
    type_text(app, date);
    AddTaskCommand.execute(app)
}

fn task(title: &str, priority: Priority) -> Task {
    Task {
        id: 0,
        title: title.to_string(),
        description: String::new(),
        completed: false,
        priority,
        date: None,
    }
}

#[test]
fn scenario_add_toggle_cycle_delete() {
    let mut app = new_app();
    assert_eq!(app.tasks_service.length(), Ok(0));
    add_through_editor(&mut app, "Buy milk", "", "").unwrap();
    assert_eq!(app.tasks_service.length(), Ok(1));
    assert_eq!(app.input_mode, InputMode::View);
    let stored = app.tasks_service.get_task(1).unwrap();
    assert_eq!(stored.id, 1);
    assert_eq!(stored.title, "Buy milk");
    assert!(!stored.completed);
    let initial = stored.priority;

    app.select_first();
    ToggleTaskStatusCommand.execute(&mut app).unwrap();
    assert!(app.task_list.items[0].completed);
    assert!(app.tasks_service.get_task(1).unwrap().completed);

    for _ in 0..3 {
        ToggleItemPriorityCommand.execute(&mut app).unwrap();
    }
    assert_eq!(app.task_list.items[0].priority, initial);
    assert_eq!(app.tasks_service.get_task(1).unwrap().priority, initial);

    DeleteTaskCommand.execute(&mut app).unwrap();
    assert_eq!(app.tasks_service.length(), Ok(0));
    assert!(app.task_list.items.is_empty());
    assert_eq!(app.task_list.selected, None);
    assert_eq!(app.tasks_service.delete_task(1), Ok(0));
    assert_eq!(app.tasks_service.length(), Ok(0));
}

#[test]
fn scenario_add_with_impossible_date() {
    let mut app = new_app();
    let r = add_through_editor(&mut app, "Pay rent", "", "31-02-2024");
    assert_eq!(r, Err(TaskError::InvalidDate));
    assert!(app.error.is_some());
    assert_eq!(app.input_mode, InputMode::Adding);
    assert_eq!(app.input_title, "Pay rent");
    assert_eq!(app.input_date, "31-02-2024");
    assert_eq!(app.tasks_service.length(), Ok(0));
}

#[test]
fn adds_are_counted_and_read_back() {
    let mut s = TasksService::new(&String::new()).unwrap();
    let priorities = [Priority::Low, Priority::High, Priority::Medium, Priority::High];
    let mut ids = Vec::new();
    for (n, p) in priorities.iter().enumerate() {
        let mut t = task(&format!("task {n}"), *p);
        t.description = format!("description {n}");
        t.date = Date::from_ymd(2024, 1 + n as u32, 10);
        ids.push(s.add_new_task(&t).unwrap());
        assert_eq!(s.length(), Ok(n as i64 + 1));
    }
    for (n, id) in ids.iter().enumerate() {
        let back = s.get_task(*id as i32).unwrap();
        assert_eq!(back.id as i64, *id);
        assert_eq!(back.title, format!("task {n}"));
        assert_eq!(back.description, format!("description {n}"));
        assert_eq!(back.priority, priorities[n]);
        assert_eq!(back.date, Date::from_ymd(2024, 1 + n as u32, 10));
        assert!(!back.completed);
    }
    assert_eq!(ids, vec![1, 2, 3, 4]);
}

#[test]
fn delete_counts() {
    let mut s = TasksService::new(&String::new()).unwrap();
    s.add_task("a".to_string()).unwrap();
    s.add_task("b".to_string()).unwrap();
    assert_eq!(s.delete_task(42), Ok(0));
    assert_eq!(s.length(), Ok(2));
    assert_eq!(s.delete_task(1), Ok(1));
    assert_eq!(s.length(), Ok(1));
    assert_eq!(s.is_empty(), Ok(false));
    assert_eq!(s.delete_task(1), Ok(0));
    assert_eq!(s.delete_all_tasks(), Ok(1));
    assert_eq!(s.is_empty(), Ok(true));
}

#[test]
fn sorted_listings_are_stable() {
    let mut s = TasksService::new(&String::new()).unwrap();
    let priorities = [Priority::Low, Priority::High, Priority::Medium, Priority::High, Priority::Low];
    for p in priorities {
        s.add_new_task(&task("t", p)).unwrap();
    }
    let high: Vec<i32> = s.get_all_tasks_sorted(SortOrder::High).unwrap().iter().map(|t| t.id).collect();
    assert_eq!(high, vec![2, 4, 3, 1, 5]);
    let low: Vec<i32> = s.get_all_tasks_sorted(SortOrder::Low).unwrap().iter().map(|t| t.id).collect();
    assert_eq!(low, vec![1, 5, 3, 2, 4]);
    let by_id: Vec<i32> = s.get_all_tasks().unwrap().iter().map(|t| t.id).collect();
    assert_eq!(by_id, vec![1, 2, 3, 4, 5]);
}

#[test]
fn ids_are_not_reused_after_delete() {
    let mut s = TasksService::new(&String::new()).unwrap();
    assert_eq!(s.add_task("a".to_string()), Ok(1));
    assert_eq!(s.add_task("b".to_string()), Ok(2));
    assert_eq!(s.delete_task(2), Ok(1));
    assert_eq!(s.add_task("c".to_string()), Ok(3));
}

#[test]
fn priority_cycle_and_codes() {
    for p in [Priority::Low, Priority::Medium, Priority::High] {
        assert_eq!(p.next().next().next(), p);
        assert_ne!(p.next(), p);
        assert_eq!(Priority::from_u8(p.to_usize() as u8), Some(p));
        assert_eq!(Priority::from_letter(p.letter()), Some(p));
    }
    assert_eq!(Priority::Low.next(), Priority::Medium);
    assert_eq!(Priority::High.next(), Priority::Low);
    assert_eq!(Priority::Medium.to_usize(), 1);
    assert_eq!(Priority::from_u8(3), None);
    assert_eq!(Priority::from_letter('h'), Some(Priority::High));
    assert_eq!(Priority::from_letter('x'), None);
    assert_eq!(Priority::High.letter(), 'H');
    assert!(Priority::Low < Priority::Medium && Priority::Medium < Priority::High);
}

#[test]
fn enter_add_then_cancel_touches_nothing() {
    let mut app = new_app();
    add_through_editor(&mut app, "kept", "", "").unwrap();
    app.select_first();
    EnterEditModeCommand.execute(&mut app).unwrap();
    assert_eq!(app.input_mode, InputMode::Adding);
    assert_eq!(app.input_field, InputFieldType::Title);
    type_text(&mut app, "dropped");
    StopEditingCommand.execute(&mut app).unwrap();
    assert_eq!(app.input_mode, InputMode::View);
    assert_eq!(app.input_title, "");
    assert_eq!(app.error, None);
    assert_eq!(app.tasks_service.length(), Ok(1));
    assert_eq!(app.task_list.items.len(), 1);
    assert_eq!(app.task_list.selected, Some(0));
}

#[test]
fn confirming_add_with_empty_title_does_nothing() {
    let mut app = new_app();
    EnterEditModeCommand.execute(&mut app).unwrap();
    app.next_input_field();
    type_text(&mut app, "only a description");
    assert_eq!(AddTaskCommand.execute(&mut app), Ok(()));
    assert_eq!(app.input_mode, InputMode::Adding);
    assert_eq!(app.error, None);
    assert_eq!(app.input_description, "only a description");
    assert_eq!(app.tasks_service.length(), Ok(0));
}

#[test]
fn added_task_is_stored_as_typed() {
    let mut app = new_app();
    add_through_editor(&mut app, "Dentist", "at nine", "05-03-2025").unwrap();
    let t = app.tasks_service.get_task(1).unwrap();
    assert_eq!(t.title, "Dentist");
    assert_eq!(t.description, "at nine");
    assert_eq!(t.priority, Priority::Low);
    assert_eq!(t.date, Some(Date { year: 2025, month: 3, day: 5 }));
    assert_eq!(app.input_title, "");
    assert_eq!(app.input_description, "");
    assert_eq!(app.input_date, "");
    assert_eq!(app.task_list.items, vec![t]);
}

#[test]
fn editing_an_existing_task() {
    let mut app = new_app();
    add_through_editor(&mut app, "Old", "desc", "01-01-2024").unwrap();
    app.select_first();
    StartEditingExistingTaskCommand.execute(&mut app).unwrap();
    assert_eq!(app.input_mode, InputMode::EditingExisting);
    assert_eq!(app.input_title, "Old");
    assert_eq!(app.input_description, "desc");
    assert_eq!(app.input_date, "01-01-2024");
    app.handle_backspace();
    app.handle_backspace();
    app.handle_backspace();
    type_text(&mut app, "New");
    app.next_input_field();
    app.next_input_field();
    app.handle_backspace();
    type_text(&mut app, "5");
    FinishEditingExistingTaskCommand.execute(&mut app).unwrap();
    assert_eq!(app.input_mode, InputMode::View);
    let stored = app.tasks_service.get_task(1).unwrap();
    assert_eq!(stored.title, "New");
    assert_eq!(stored.date, Some(Date { year: 2025, month: 1, day: 1 }));
    assert_eq!(app.task_list.items[0], stored);
}

#[test]
fn finishing_an_edit_with_a_bad_date_keeps_the_input() {
    let mut app = new_app();
    add_through_editor(&mut app, "Task", "", "").unwrap();
    app.select_first();
    StartEditingExistingTaskCommand.execute(&mut app).unwrap();
    app.input_field = InputFieldType::Date;
    type_text(&mut app, "30-02-2024");
    assert_eq!(FinishEditingExistingTaskCommand.execute(&mut app), Err(TaskError::InvalidDate));
    assert_eq!(app.input_mode, InputMode::EditingExisting);
    assert_eq!(app.input_date, "30-02-2024");
    assert!(app.error.is_some());
    assert_eq!(app.tasks_service.get_task(1).unwrap().date, None);
}

#[test]
fn commands_without_selection_do_nothing() {
    let mut app = new_app();
    add_through_editor(&mut app, "Task", "", "").unwrap();
    assert_eq!(app.task_list.selected, None);
    ToggleTaskStatusCommand.execute(&mut app).unwrap();
    ToggleItemPriorityCommand.execute(&mut app).unwrap();
    DeleteTaskCommand.execute(&mut app).unwrap();
    StartEditingExistingTaskCommand.execute(&mut app).unwrap();
    assert_eq!(app.input_mode, InputMode::View);
    let t = app.tasks_service.get_task(1).unwrap();
    assert!(!t.completed);
    assert_eq!(t.priority, Priority::Low);
    assert_eq!(app.tasks_service.length(), Ok(1));
}

#[test]
fn deleting_a_task_gone_from_storage_keeps_the_entry() {
    let mut app = new_app();
    add_through_editor(&mut app, "Task", "", "").unwrap();
    app.select_first();
    assert_eq!(app.tasks_service.delete_task(1), Ok(1));
    DeleteTaskCommand.execute(&mut app).unwrap();
    assert_eq!(app.task_list.items.len(), 1);
}

#[test]
fn selection_moves_and_clamps() {
    let mut app = new_app();
    app.select_next();
    assert_eq!(app.task_list.selected, None);
    for title in ["a", "b", "c"] {
        add_through_editor(&mut app, title, "", "").unwrap();
    }
    app.select_next();
    assert_eq!(app.task_list.selected, Some(0));
    app.select_next();
    app.select_next();
    app.select_next();
    assert_eq!(app.task_list.selected, Some(2));
    app.select_previous();
    assert_eq!(app.task_list.selected, Some(1));
    app.select_first();
    app.select_previous();
    assert_eq!(app.task_list.selected, Some(0));
    app.select_last();
    assert_eq!(app.task_list.selected, Some(2));
    app.select_none();
    app.select_previous();
    assert_eq!(app.task_list.selected, Some(2));
    DeleteTaskCommand.execute(&mut app).unwrap();
    assert_eq!(app.task_list.selected, Some(1));
}

#[test]
fn sorting_the_view_by_priority() {
    let mut app = new_app();
    for title in ["a", "b"] {
        add_through_editor(&mut app, title, "", "").unwrap();
    }
    app.select_last();
    ToggleItemPriorityCommand.execute(&mut app).unwrap();
    app.sort_by_priority().unwrap();
    let titles: Vec<String> = app.task_list.items.iter().map(|t| t.title.clone()).collect();
    assert_eq!(titles, vec!["b".to_string(), "a".to_string()]);
}

#[test]
fn keys_drive_the_editor() {
    let mut app = new_app();
    assert_eq!(handle_key(&mut app, Key::Char('h')).0, Flow::Continue);
    assert!(app.show_help);
    handle_key(&mut app, Key::Esc);
    assert!(!app.show_help);
    handle_key(&mut app, Key::Char('a'));
    assert_eq!(app.input_mode, InputMode::Adding);
    for c in "Walk".chars() {
        handle_key(&mut app, Key::Char(c));
    }
    handle_key(&mut app, Key::Char('q'));
    handle_key(&mut app, Key::Backspace);
    assert_eq!(app.input_title, "Walk");
    handle_key(&mut app, Key::Tab);
    handle_key(&mut app, Key::Char('x'));
    assert_eq!(app.input_description, "x");
    let (flow, r) = handle_key(&mut app, Key::Enter);
    assert_eq!(flow, Flow::Continue);
    assert_eq!(r, Ok(()));
    assert_eq!(app.input_mode, InputMode::View);
    handle_key(&mut app, Key::Down);
    handle_key(&mut app, Key::Char(' '));
    assert!(app.tasks_service.get_task(1).unwrap().completed);
    handle_key(&mut app, Key::Char('p'));
    assert_eq!(app.tasks_service.get_task(1).unwrap().priority, Priority::Medium);
    handle_key(&mut app, Key::Char('m'));
    assert_eq!(app.input_mode, InputMode::EditingExisting);
    handle_key(&mut app, Key::Esc);
    assert_eq!(app.input_mode, InputMode::View);
    handle_key(&mut app, Key::Char('d'));
    assert_eq!(app.tasks_service.length(), Ok(0));
    assert_eq!(handle_key(&mut app, Key::Char('q')).0, Flow::Quit);
}

#[test]
fn dates_are_read_and_written_by_the_pattern() {
    assert_eq!(Date::parse("15-10-2024"), Some(Date { year: 2024, month: 10, day: 15 }));
    assert_eq!(Date::parse("29-02-2024"), Some(Date { year: 2024, month: 2, day: 29 }));
    assert_eq!(Date::parse("29-02-2023"), None);
    assert_eq!(Date::parse("31-04-2024"), None);
    assert_eq!(Date::parse("invalid date"), None);
    assert_eq!(Date::parse(""), None);
    assert_eq!(Date::parse("1-2-2024"), None);
    assert_eq!(Date::parse("01-02-24"), None);
    assert_eq!(Date::parse(" 01-02-2024"), None);
    assert_eq!(Date::parse("00-01-2024"), None);
    assert_eq!(Date::parse("01-02-0024"), Some(Date { year: 24, month: 2, day: 1 }));
    assert_eq!(Date { year: 2024, month: 2, day: 1 }.to_text(), "01-02-2024");
    assert_eq!(Date { year: 7, month: 12, day: 31 }.to_text(), "31-12-0007");
    assert_eq!(Date::from_ymd(1900, 2, 29), None);
    assert_eq!(Date::from_ymd(2000, 2, 29), Some(Date { year: 2000, month: 2, day: 29 }));
    assert_eq!(Date::from_ymd(10000, 1, 1), None);
    assert!(!Date { year: 2024, month: 13, day: 1 }.is_valid());
}

#[test]
fn a_task_with_an_invalid_date_is_refused() {
    let mut s = TasksService::new(&String::new()).unwrap();
    let mut t = task("x", Priority::Low);
    t.date = Some(Date { year: 2023, month: 2, day: 29 });
    assert_eq!(s.add_new_task(&t), Err(TaskError::InvalidDate));
    t.id = 1;
    assert_eq!(s.update_task(&t), Err(TaskError::InvalidDate));
    assert_eq!(s.length(), Ok(0));
}

#[test]
fn rows_that_are_not_tasks_are_refused() {
    let good = TaskRow {
        id: 3,
        title: "t".to_string(),
        description: "d".to_string(),
        completed: true,
        priority: 2,
        date: Some("07-08-2025".to_string()),
    };
    let t = task_from_row(&good).unwrap();
    assert_eq!(t.id, 3);
    assert_eq!(t.priority, Priority::High);
    assert_eq!(t.date, Some(Date { year: 2025, month: 8, day: 7 }));
    let mut bad_priority = good.clone();
    bad_priority.priority = 7;
    assert_eq!(task_from_row(&bad_priority), None);
    let mut loose_date = good.clone();
    loose_date.date = Some("7-8-2025".to_string());
    assert_eq!(task_from_row(&loose_date), None);
    let mut big_id = good.clone();
    big_id.id = 1 << 40;
    assert_eq!(task_from_row(&big_id), None);
    assert_eq!(tasks_from_rows(&vec![good.clone(), bad_priority]), Err(3));
    assert_eq!(tasks_from_rows(&vec![good]).map(|v| v.len()), Ok(1));
}

#[test]
fn a_store_that_cannot_be_opened_is_a_storage_error() {
    let r = TasksService::new(&"/no/such/directory/tasks.db".to_string());
    assert!(matches!(r, Err(TaskError::Storage(_))));
    assert!(AppContext::new("/no/such/directory/tasks.db".to_string()).is_err());
}

#[test]
fn priority_change_and_completion_through_the_service() {
    let mut s = TasksService::new(&String::new()).unwrap();
    s.add_task_with_priority("x".to_string(), Priority::Medium).unwrap();
    assert_eq!(s.get_task(1).unwrap().priority, Priority::Medium);
    assert_eq!(s.change_priortiy(1, Priority::High), Ok(1));
    assert_eq!(s.change_priortiy(9, Priority::High), Ok(0));
    assert_eq!(s.get_task(1).unwrap().priority, Priority::High);
    assert_eq!(s.mark_completed(1), Ok(1));
    assert!(s.get_task(1).unwrap().completed);
    assert_eq!(s.toggle_task_completed(1, false), Ok(1));
    assert!(!s.get_task(1).unwrap().completed);
}

#[test]
fn export_writes_one_todo_per_task() {
    let tasks = vec![
        Task {
            id: 1,
            title: "First".to_string(),
            description: "one".to_string(),
            completed: false,
            priority: Priority::High,
            date: Some(Date { year: 2024, month: 10, day: 15 }),
        },
        Task {
            id: 2,
            title: "Second".to_string(),
            description: "two".to_string(),
            completed: true,
            priority: Priority::Low,
            date: None,
        },
    ];
    let text = export_tasks_to_icalendar("My list", &tasks).to_string();
    assert_eq!(text.matches("BEGIN:VTODO").count(), 2);
    assert!(text.contains("SUMMARY:First"));
    assert!(text.contains("DESCRIPTION:two"));
    assert!(text.contains("STATUS:NEEDS-ACTION"));
    assert!(text.contains("STATUS:COMPLETED"));
    assert!(text.contains("PRIORITY:2"));
    assert!(text.contains("PRIORITY:0"));
    assert!(text.contains("20241015"));
    assert!(text.contains("X-WR-CALNAME:My list"));
}

#[test]
fn error_messages() {
    assert_eq!(TaskError::Storage("disk".to_string()).message(), "disk");
    assert!(!TaskError::InvalidDate.message().is_empty());
    assert!(!TaskError::UnreadableRow(1).message().is_empty());
}

fn same_tasks_as_store(app: &AppContext) -> bool {
    let mut shown = app.task_list.items.clone();
    shown.sort_by_key(|t| t.id);
    shown == app.tasks_service.get_all_tasks().unwrap()
}

#[test]
fn the_list_stays_in_step_with_the_store() {
    let mut app = new_app();
    for title in ["a", "b", "c"] {
        add_through_editor(&mut app, title, "", "").unwrap();
        assert!(same_tasks_as_store(&app));
    }
    app.select_first();
    ToggleTaskStatusCommand.execute(&mut app).unwrap();
    assert!(same_tasks_as_store(&app));
    app.select_next();
    ToggleItemPriorityCommand.execute(&mut app).unwrap();
    assert!(same_tasks_as_store(&app));
    StartEditingExistingTaskCommand.execute(&mut app).unwrap();
    type_text(&mut app, " edited");
    FinishEditingExistingTaskCommand.execute(&mut app).unwrap();
    assert!(same_tasks_as_store(&app));
    DeleteTaskCommand.execute(&mut app).unwrap();
    assert!(same_tasks_as_store(&app));
    app.sort_by_priority().unwrap();
    assert!(same_tasks_as_store(&app));
    assert_eq!(app.task_list.items.len(), 2);
}

#[test]
fn a_stored_row_that_is_not_a_task_is_reported() {
    let path = "file:unreadable_rows?mode=memory&cache=shared";
    let mut db = task_rustler::task_db::DB::create_and_return_connection(path).unwrap();
    let id = db.insert_task("t", "d", false, Priority::Low, Some("1-2-2024")).unwrap();
    let service = TasksService::new(&path.to_string()).unwrap();
    assert_eq!(service.get_all_tasks(), Err(TaskError::UnreadableRow(id)));
    assert_eq!(service.get_all_tasks_sorted(SortOrder::High), Err(TaskError::UnreadableRow(id)));
    assert_eq!(service.get_task(id as i32), None);
    assert_eq!(db.get_record_count(), Ok(1));
}

#[test]
fn dates_not_written_dd_mm_yyyy_are_refused_by_the_editor() {
    let mut app = new_app();
    assert_eq!(add_through_editor(&mut app, "Loose", "", "1-2-2024"), Err(TaskError::InvalidDate));
    assert_eq!(app.input_mode, InputMode::Adding);
    app.input_date = String::from("01-02-24");
    assert_eq!(AddTaskCommand.execute(&mut app), Err(TaskError::InvalidDate));
    app.input_date = String::from("01-02-2024");
    AddTaskCommand.execute(&mut app).unwrap();
    app.select_first();
    StartEditingExistingTaskCommand.execute(&mut app).unwrap();
    app.input_date = String::from("1-2-2024");
    assert_eq!(FinishEditingExistingTaskCommand.execute(&mut app), Err(TaskError::InvalidDate));
    assert_eq!(app.input_mode, InputMode::EditingExisting);
    assert_eq!(app.tasks_service.get_task(1).unwrap().date, Some(Date { year: 2024, month: 2, day: 1 }));
}

#[test]
fn entering_add_mode_keeps_the_shown_error() {
    let mut app = new_app();
    app.error = Some("earlier failure".to_string());
    EnterEditModeCommand.execute(&mut app).unwrap();
    assert_eq!(app.input_mode, InputMode::Adding);
    assert_eq!(app.error, Some("earlier failure".to_string()));
}

#[test]
fn confirming_with_enter_browses_only_on_success() {
    let mut app = new_app();
    handle_key(&mut app, Key::Char('a'));
    for c in "Task".chars() {
        handle_key(&mut app, Key::Char(c));
    }
    handle_key(&mut app, Key::Tab);
    handle_key(&mut app, Key::Tab);
    for c in "32-01-2024".chars() {
        handle_key(&mut app, Key::Char(c));
    }
    let (_, r) = handle_key(&mut app, Key::Enter);
    assert_eq!(r, Err(TaskError::InvalidDate));
    assert_eq!(app.input_mode, InputMode::Adding);
    assert!(app.error.is_some());
    for _ in 0..10 {
        handle_key(&mut app, Key::Backspace);
    }
    let (_, r) = handle_key(&mut app, Key::Enter);
    assert_eq!(r, Ok(()));
    assert_eq!(app.input_mode, InputMode::View);
    assert_eq!(app.error, None);
}
