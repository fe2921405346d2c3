use std::path::PathBuf;
use todo_app::location::{APP_DIR_NAME, DATABASE_FILE_NAME};
use todo_app::task::append_decimal;
use todo_app::{format_task, storage_location, Task, TaskError};

fn task(id: i64, description: &str, completed: bool) -> Task {
    Task { id, description: description.to_string(), completed }
}

#[test]
fn format_open_task() {
    assert_eq!(format_task(&task(2, "Build a to-do app", false)), "2: Build a to-do app [ ]");
}

#[test]
fn format_completed_task() {
    assert_eq!(format_task(&task(1, "Learn Rust", true)), "1: Learn Rust [x]");
}

#[test]
fn format_empty_description() {
    assert_eq!(format_task(&task(10, "", false)), "10:  [ ]");
}

#[test]
fn decimal_of_edge_values() {
    for n in [0i64, 7, 9, 10, 99, 100, 12345, -1, -10, -987, i64::MAX, i64::MIN] {
        let mut s = String::from("id=");
        append_decimal(&mut s, n);
        assert_eq!(s, format!("id={}", n));
    }
}

#[test]
fn location_without_home_is_environment_error() {
    assert!(matches!(storage_location(None), Err(TaskError::Environment)));
}

#[test]
fn location_under_home() {
    let home = PathBuf::from("/home/someone");
    let loc = storage_location(Some(home.clone())).ok().unwrap();
    assert_eq!(loc.dir, PathBuf::from("/home/someone/.todo_app"));
    assert_eq!(loc.file, PathBuf::from("/home/someone/.todo_app/tasks.db"));
    assert_eq!(loc.dir, home.join(APP_DIR_NAME));
    assert_eq!(loc.file, home.join(APP_DIR_NAME).join(DATABASE_FILE_NAME));
}

#[test]
fn located_file_is_database_in_app_directory() {
    if let Ok(loc) = todo_app::locate_storage_path() {
        assert!(loc.dir.ends_with(APP_DIR_NAME));
        assert!(loc.file.ends_with(PathBuf::from(APP_DIR_NAME).join(DATABASE_FILE_NAME)));
        assert_eq!(loc.file.parent(), Some(loc.dir.as_path()));
    }
}
