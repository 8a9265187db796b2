use task_rustler::app::AppContext;
use task_rustler::command::{AddTaskCommand, Command};

#[test]
fn add_task_command_test() {
    let mut app = AppContext::new(String::new()).unwrap();
    app.input_title = String::from("test title");
    app.input_description = String::from("test description");
    app.input_date = String::from("invalid date");
    let res = AddTaskCommand.execute(&mut app);
    assert!(res.is_err());
}
