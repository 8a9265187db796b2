use task_rustler::date::Date;
use task_rustler::export::export_tasks_to_icalendar;
use task_rustler::task::{Priority, Task};

#[test]
fn tasks_to_icalendar() {
    let task1 = Task {
        id: 0,
        title: "First task".to_string(),
        description: "Task n 1".to_string(),
        completed: false,
        priority: Priority::Low,
        date: Date::parse("15-10-2024"),
    };

    let task2 = Task {
        id: 1,
        title: "Second task".to_string(),
        description: "Task n 2".to_string(),
        completed: true,
        priority: Priority::High,
        date: None,
    };

    let tasks = vec![task1, task2];

    let calendar = export_tasks_to_icalendar("Task Rustler", &tasks);
    println!("{}", calendar);
}
