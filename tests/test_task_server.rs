use task_rustler::task_manager::TasksService;

fn setup() -> TasksService {
    let mut tasks = TasksService::new(&String::new()).unwrap();
    let tasks_to_add = vec!["First task".to_string(), "Second task".to_string(), "Third task".to_string()];
    for description in tasks_to_add {
        tasks.add_task(description).unwrap();
    }
    tasks
}

fn teardown(t: &mut TasksService) {
    t.delete_all_tasks().unwrap();
}

#[test]
fn test_task_server_get_all_tasks() {
    let mut t = setup();
    assert_eq!(t.length(), Ok(3));
    teardown(&mut t);
}

#[test]
fn test_task_server_should_return_task_if_id_exists() {
    let mut t = setup();
    t.add_task("Hi".to_string()).unwrap();
    let task = t.get_task(4).unwrap();
    assert_eq!(task.id, 4);
    assert_eq!(task.description, "Hi");
    assert_eq!(task.completed, false);
}

#[test]
fn test_task_server_should_return_none_if_task_is_not_found() {
    let t = setup();
    let task = t.get_task(100);
    assert_eq!(task.is_none(), true);
}

#[test]
fn test_task_server_set_completed_should_return_1_if_task_exists_0_otherwise() {
    let mut t = setup();
    let num_tasks_completed = t.mark_completed(1);
    assert_eq!(num_tasks_completed, Ok(1));
    let num_tasks_completed = t.mark_completed(100);
    assert_eq!(num_tasks_completed, Ok(0));
}

#[test]
fn test_task_server_delete_task_should_return_1_if_task_exists_0_otherwise() {
    let mut t = setup();
    let num_task_removed = t.delete_task(2);
    assert_eq!(num_task_removed, Ok(1));
    let num_task_removed = t.delete_task(100);
    assert_eq!(num_task_removed, Ok(0));
}
