//! A task list kept in SQLite: tasks with a priority, a completed flag and an optional due
//! date; an editing session that decides which field typed text goes to; and the commands that
//! keep the list on screen in step with the store.

pub mod app;
pub mod command;
pub mod date;
pub mod export;
pub mod keys;
pub mod sync;
pub mod task;
pub mod task_db;
pub mod task_manager;
