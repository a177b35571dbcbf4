use task_manager::app::{App, InputField, InputMode, TaskList};
use task_manager::command::{
    committed, reported, AddTaskCommand, Command, CommandError, DeleteTaskCommand,
    EnterEditModeCommand, FinishEditingExistingTaskCommand, StartEditingExistingTaskCommand,
    StopEditingCommand, ToggleItemPriorityCommand, ToggleTaskStatusCommand,
};
use task_manager::date::{Date, DateError};
use task_manager::task::{Priority, Task};
use task_manager::task_db::{StoreError, DB};

fn app_with(titles: &[&str]) -> App {
    let mut db = DB::create_and_return_connection("").unwrap();
    for title in titles {
        let mut t = Task::new();
        t.title = title.to_string();
        t.description = format!("about {}", title);
        db.insert_task(&t).unwrap();
    }
    let mut app = App::new(db);
    app.refresh_task_list().unwrap();
    app
}

/// An app on a database that a second connection can reach.
fn shared_app(name: &str, titles: &[&str]) -> (App, rusqlite::Connection) {
    let path = format!("file:{}?mode=memory&cache=shared", name);
    let mut db = DB::create_and_return_connection(&path).unwrap();
    for title in titles {
        let mut t = Task::new();
        t.title = title.to_string();
        db.insert_task(&t).unwrap();
    }
    let mut app = App::new(db);
    app.refresh_task_list().unwrap();
    (app, rusqlite::Connection::open(&path).unwrap())
}

fn type_in(app: &mut App, title: &str, description: &str, date: &str) {
    app.input_title = title.to_string();
    app.input_description = description.to_string();
    app.input_date = date.to_string();
}

fn titles(app: &App) -> Vec<String> {
    app.task_list.items.iter().map(|t| t.title.clone()).collect()
}

#[test]
fn a_new_app_shows_nothing_and_waits() {
    let app = App::new(DB::create_and_return_connection("").unwrap());
    assert!(app.task_list.items.is_empty());
    assert_eq!(app.task_list.selected, None);
    assert_eq!(app.input_mode, InputMode::Normal);
    assert_eq!(app.input_field, InputField::Title);
    assert_eq!(app.input_title, "");
    assert_eq!(app.input_description, "");
    assert_eq!(app.input_date, "");
    assert!(app.is_well_formed());
}

#[test]
fn refreshing_shows_what_the_store_holds() {
    let mut app = app_with(&["a", "b", "c"]);
    assert_eq!(titles(&app), vec!["a", "b", "c"]);
    app.task_list.select(Some(2));
    app.tasks_service.delete_task(app.task_list.items[2].id).unwrap();
    app.tasks_service.delete_task(app.task_list.items[1].id).unwrap();
    app.refresh_task_list().unwrap();
    assert_eq!(titles(&app), vec!["a"]);
    assert_eq!(app.task_list.selected, Some(0));
    app.tasks_service.clear().unwrap();
    app.refresh_task_list().unwrap();
    assert!(app.task_list.items.is_empty());
    assert_eq!(app.task_list.selected, None);
}

#[test]
fn a_failed_refresh_leaves_the_screen_alone() {
    let (mut app, raw) = shared_app("failed_refresh", &["a", "b"]);
    app.task_list.select(Some(1));
    raw.execute("DROP TABLE tasks", []).unwrap();
    assert!(matches!(app.refresh_task_list(), Err(StoreError::Access(_))));
    assert_eq!(titles(&app), vec!["a", "b"]);
    assert_eq!(app.task_list.selected, Some(1));
}

#[test]
fn the_cursor_goes_where_it_is_put_as_far_as_the_list_reaches() {
    let mut app = app_with(&["a", "b", "c"]);
    app.task_list.select(Some(1));
    assert_eq!(app.task_list.selected, Some(1));
    app.task_list.select(Some(3));
    assert_eq!(app.task_list.selected, Some(2));
    app.task_list.select(Some(usize::MAX));
    assert_eq!(app.task_list.selected, Some(2));
    app.task_list.select(None);
    assert_eq!(app.task_list.selected, None);
    let mut empty = app_with(&[]);
    empty.task_list.select(Some(0));
    assert_eq!(empty.task_list.selected, None);
    assert!(app.is_well_formed() && empty.is_well_formed());
}

#[test]
fn a_new_list_is_empty_and_has_no_cursor() {
    let list = TaskList::new();
    assert!(list.items.is_empty());
    assert_eq!(list.selected, None);
}

#[test]
fn replacing_the_tasks_keeps_the_cursor_as_far_as_the_list_reaches() {
    let named = |titles: &[&str]| -> Vec<Task> {
        titles
            .iter()
            .map(|title| {
                let mut t = Task::new();
                t.title = title.to_string();
                t
            })
            .collect()
    };
    let mut list = TaskList::new();
    list.replace(named(&["a", "b", "c"]));
    assert_eq!(list.selected, None);
    assert_eq!(list.items, named(&["a", "b", "c"]));
    list.select(Some(2));
    list.replace(named(&["x", "y", "z", "w"]));
    assert_eq!(list.selected, Some(2));
    list.replace(named(&["x", "y"]));
    assert_eq!(list.selected, Some(1));
    assert_eq!(list.items, named(&["x", "y"]));
    list.replace(Vec::new());
    assert_eq!(list.selected, None);
    list.replace(named(&["again"]));
    assert_eq!(list.selected, None);
}

#[test]
fn a_cursor_beyond_the_list_is_not_well_formed() {
    let mut app = app_with(&["a"]);
    app.task_list.selected = Some(1);
    assert!(!app.is_well_formed());
    app.task_list.selected = Some(0);
    assert!(app.is_well_formed());
}

#[test]
fn entering_edit_mode_turns_to_the_title() {
    let mut app = app_with(&["a"]);
    app.input_field = InputField::Date;
    type_in(&mut app, "kept", "kept too", "x");
    assert!(EnterEditModeCommand.execute(&mut app).is_ok());
    assert_eq!(app.input_mode, InputMode::Editing);
    assert_eq!(app.input_field, InputField::Title);
    assert_eq!(app.input_title, "kept");
    assert_eq!(app.input_description, "kept too");
    assert_eq!(app.input_date, "x");
    assert_eq!(titles(&app), vec!["a"]);
}

#[test]
fn adding_a_task_shows_exactly_one_new_task() {
    let mut app = app_with(&["old"]);
    EnterEditModeCommand.execute(&mut app).unwrap();
    type_in(&mut app, "  Buy milk ", " two litres\n", "");
    assert!(AddTaskCommand.execute(&mut app).is_ok());
    assert_eq!(app.task_list.items.len(), 2);
    assert_eq!(app.task_list.items[0].title, "old");
    let added = &app.task_list.items[1];
    assert_eq!(added.title, "Buy milk");
    assert_eq!(added.description, "two litres");
    assert!(!added.completed);
    assert_eq!(added.priority, Priority::Low);
    assert_ne!(added.id, app.task_list.items[0].id);
    assert_eq!(app.tasks_service.get_task_by_id(added.id).unwrap().title, "Buy milk");
    assert_eq!(app.tasks_service.get_record_count().unwrap(), 2);
    assert_eq!(app.input_title, "");
    assert_eq!(app.input_description, "");
    assert_eq!(app.input_date, "");
    assert_eq!(app.input_mode, InputMode::Normal);
}

#[test]
fn adding_a_task_with_a_date_shows_the_placeholder() {
    let mut app = app_with(&[]);
    type_in(&mut app, "Dentist", "", "14-03-25");
    assert!(AddTaskCommand.execute(&mut app).is_ok());
    assert_eq!(app.task_list.items.len(), 1);
    assert_eq!(app.task_list.items[0].title, "Dentist");
    assert_eq!(app.task_list.items[0].date, Date::placeholder());
    assert_eq!(app.input_date, "");
}

#[test]
fn adding_a_task_with_a_bad_date_adds_nothing() {
    let mut app = app_with(&["old"]);
    app.task_list.select(Some(0));
    EnterEditModeCommand.execute(&mut app).unwrap();
    type_in(&mut app, "Buy milk", "two litres", "tomorrow");
    let r = AddTaskCommand.execute(&mut app);
    assert!(matches!(r, Err(CommandError::InvalidDate(DateError::Malformed))));
    assert_eq!(titles(&app), vec!["old"]);
    assert_eq!(app.tasks_service.get_record_count().unwrap(), 1);
    assert_eq!(app.task_list.selected, Some(0));
    assert_eq!(app.input_mode, InputMode::Editing);
    assert_eq!(app.input_title, "");
    assert_eq!(app.input_description, "");
    assert_eq!(app.input_date, "");
}

#[test]
fn adding_a_task_on_a_day_that_does_not_exist_adds_nothing() {
    let mut app = app_with(&[]);
    type_in(&mut app, "Leap", "", "29-02-23");
    let r = AddTaskCommand.execute(&mut app);
    assert!(matches!(r, Err(CommandError::InvalidDate(DateError::NoSuchDay))));
    assert!(app.task_list.items.is_empty());
    assert_eq!(app.tasks_service.get_record_count().unwrap(), 0);
}

#[test]
fn adding_a_task_to_a_failing_store_reports_it() {
    let (mut app, raw) = shared_app("failing_add", &["old"]);
    raw.execute("DROP TABLE tasks", []).unwrap();
    EnterEditModeCommand.execute(&mut app).unwrap();
    type_in(&mut app, "new", "", "");
    let r = AddTaskCommand.execute(&mut app);
    assert!(matches!(r, Err(CommandError::Store(StoreError::Access(_)))));
    assert_eq!(titles(&app), vec!["old"]);
    assert_eq!(app.input_mode, InputMode::Editing);
    assert_eq!(app.input_title, "");
}

#[test]
fn toggling_the_status_flips_it_in_memory_and_in_the_store() {
    let mut app = app_with(&["a", "b"]);
    app.task_list.select(Some(1));
    let id = app.task_list.items[1].id;
    assert!(ToggleTaskStatusCommand.execute(&mut app).is_ok());
    assert!(app.task_list.items[1].completed);
    assert!(!app.task_list.items[0].completed);
    assert!(app.tasks_service.get_task_by_id(id).unwrap().completed);
    assert!(ToggleTaskStatusCommand.execute(&mut app).is_ok());
    assert!(!app.task_list.items[1].completed);
    assert!(!app.tasks_service.get_task_by_id(id).unwrap().completed);
    assert_eq!(app.task_list.selected, Some(1));
}

#[test]
fn toggling_the_status_without_a_cursor_does_nothing() {
    let mut app = app_with(&["a"]);
    assert!(ToggleTaskStatusCommand.execute(&mut app).is_ok());
    assert!(!app.task_list.items[0].completed);
    assert!(!app.tasks_service.get_all_tasks().unwrap()[0].completed);
}

#[test]
fn toggling_the_status_succeeds_though_the_store_fails() {
    let (mut app, raw) = shared_app("failing_status", &["a"]);
    app.task_list.select(Some(0));
    raw.execute("DROP TABLE tasks", []).unwrap();
    assert!(ToggleTaskStatusCommand.execute(&mut app).is_ok());
    assert!(app.task_list.items[0].completed);
}

#[test]
fn three_steps_of_priority_lead_back_to_low() {
    let mut db = DB::create_and_return_connection("").unwrap();
    let mut t = Task::new();
    t.title = "Buy milk".to_string();
    t.priority = Priority::Low;
    let id = db.insert_task(&t).unwrap();
    let mut app = App::new(db);
    app.refresh_task_list().unwrap();
    app.task_list.select(Some(0));
    let mut seen = Vec::new();
    for _ in 0..3 {
        assert!(ToggleItemPriorityCommand.execute(&mut app).is_ok());
        assert_eq!(
            app.tasks_service.get_task_by_id(id).unwrap().priority,
            app.task_list.items[0].priority
        );
        seen.push(app.task_list.items[0].priority);
    }
    assert_eq!(seen, vec![Priority::Medium, Priority::High, Priority::Low]);
}

#[test]
fn advancing_the_priority_without_a_cursor_does_nothing() {
    let mut app = app_with(&["a"]);
    assert!(ToggleItemPriorityCommand.execute(&mut app).is_ok());
    assert_eq!(app.task_list.items[0].priority, Priority::Low);
    assert_eq!(app.tasks_service.get_all_tasks().unwrap()[0].priority, Priority::Low);
}

#[test]
fn advancing_the_priority_reports_a_failing_store() {
    let (mut app, raw) = shared_app("failing_priority", &["a"]);
    app.task_list.select(Some(0));
    raw.execute("DROP TABLE tasks", []).unwrap();
    let r = ToggleItemPriorityCommand.execute(&mut app);
    assert!(matches!(r, Err(CommandError::Store(StoreError::Access(_)))));
    assert_eq!(app.task_list.items[0].priority, Priority::Medium);
}

#[test]
fn starting_an_edit_lays_the_task_out_in_the_fields() {
    let mut app = app_with(&["a", "b"]);
    app.task_list.select(Some(1));
    app.input_field = InputField::Description;
    assert!(StartEditingExistingTaskCommand.execute(&mut app).is_ok());
    assert_eq!(app.input_title, "b");
    assert_eq!(app.input_description, "about b");
    assert_eq!(app.input_date, "30-09-24");
    assert_eq!(app.input_mode, InputMode::EditingExisting);
    assert_eq!(app.input_field, InputField::Title);
    assert_eq!(titles(&app), vec!["a", "b"]);
}

#[test]
fn starting_an_edit_of_a_task_without_a_date_leaves_the_date_field_empty() {
    let mut app = app_with(&["a"]);
    app.task_list.select(Some(0));
    app.task_list.items[0].date = Date::none();
    app.input_date = "left over".to_string();
    assert!(StartEditingExistingTaskCommand.execute(&mut app).is_ok());
    assert_eq!(app.input_date, "");
}

#[test]
fn starting_an_edit_without_a_cursor_does_nothing() {
    let mut app = app_with(&["a"]);
    type_in(&mut app, "t", "d", "x");
    assert!(StartEditingExistingTaskCommand.execute(&mut app).is_ok());
    assert_eq!(app.input_mode, InputMode::Normal);
    assert_eq!(app.input_title, "t");
    assert_eq!(app.input_description, "d");
    assert_eq!(app.input_date, "x");
}

#[test]
fn stopping_an_edit_discards_what_was_typed() {
    let mut app = app_with(&["a", "b"]);
    app.task_list.select(Some(0));
    let before = app.task_list.items.clone();
    StartEditingExistingTaskCommand.execute(&mut app).unwrap();
    type_in(&mut app, "changed", "changed too", "01-01-25");
    app.input_field = InputField::Date;
    assert!(StopEditingCommand.execute(&mut app).is_ok());
    assert_eq!(app.task_list.items, before);
    assert_eq!(app.tasks_service.get_all_tasks().unwrap(), before);
    assert_eq!(app.input_mode, InputMode::Normal);
    assert_eq!(app.input_title, "");
    assert_eq!(app.input_description, "");
    assert_eq!(app.input_date, "");
    assert_eq!(app.task_list.selected, Some(0));
}

#[test]
fn finishing_an_edit_with_an_empty_date_takes_the_date_away() {
    let mut app = app_with(&["a"]);
    app.task_list.select(Some(0));
    assert_eq!(app.task_list.items[0].date, Date::placeholder());
    StartEditingExistingTaskCommand.execute(&mut app).unwrap();
    app.input_date = String::new();
    assert!(FinishEditingExistingTaskCommand.execute(&mut app).is_ok());
    assert_eq!(app.task_list.items[0].date, Date(None));
    assert_eq!(app.input_mode, InputMode::Normal);
}

#[test]
fn finishing_an_edit_rewrites_the_task() {
    let mut app = app_with(&["a", "b"]);
    app.task_list.select(Some(1));
    let id = app.task_list.items[1].id;
    StartEditingExistingTaskCommand.execute(&mut app).unwrap();
    type_in(&mut app, " better ", "much better", "24-12-25");
    assert!(FinishEditingExistingTaskCommand.execute(&mut app).is_ok());
    let t = &app.task_list.items[1];
    assert_eq!(t.id, id);
    assert_eq!(t.title, " better ");
    assert_eq!(t.description, "much better");
    assert_eq!(t.date.to_text(), "24-12-25");
    assert_eq!(titles(&app), vec!["a", " better "]);
    let stored = app.tasks_service.get_task_by_id(id).unwrap();
    assert_eq!(stored.title, "better");
    assert_eq!(stored.description, "much better");
    assert_eq!(app.input_mode, InputMode::Normal);
    assert_eq!(app.input_title, "");
    assert_eq!(app.input_description, "");
    assert_eq!(app.input_date, "");
}

#[test]
fn finishing_an_edit_with_a_bad_date_keeps_the_date_and_the_mode() {
    let mut app = app_with(&["a"]);
    app.task_list.select(Some(0));
    let id = app.task_list.items[0].id;
    StartEditingExistingTaskCommand.execute(&mut app).unwrap();
    type_in(&mut app, "half", "done", "31-02-25");
    let r = FinishEditingExistingTaskCommand.execute(&mut app);
    assert!(matches!(r, Err(CommandError::InvalidDate(DateError::NoSuchDay))));
    assert_eq!(app.task_list.items[0].title, "half");
    assert_eq!(app.task_list.items[0].description, "done");
    assert_eq!(app.task_list.items[0].date, Date::placeholder());
    assert_eq!(app.input_mode, InputMode::EditingExisting);
    assert_eq!(app.input_title, "");
    assert_eq!(app.input_description, "");
    assert_eq!(app.input_date, "");
    assert_eq!(app.tasks_service.get_task_by_id(id).unwrap().title, "a");
}

#[test]
fn finishing_an_edit_without_a_cursor_only_resets_the_mode() {
    let mut app = app_with(&["a"]);
    EnterEditModeCommand.execute(&mut app).unwrap();
    type_in(&mut app, "t", "d", "not a date");
    assert!(FinishEditingExistingTaskCommand.execute(&mut app).is_ok());
    assert_eq!(app.input_mode, InputMode::Normal);
    assert_eq!(app.input_title, "t");
    assert_eq!(app.input_description, "d");
    assert_eq!(app.input_date, "not a date");
    assert_eq!(titles(&app), vec!["a"]);
}

#[test]
fn finishing_an_edit_reports_a_failing_store() {
    let (mut app, raw) = shared_app("failing_finish", &["a"]);
    app.task_list.select(Some(0));
    StartEditingExistingTaskCommand.execute(&mut app).unwrap();
    type_in(&mut app, "new", "text", "");
    raw.execute("DROP TABLE tasks", []).unwrap();
    let r = FinishEditingExistingTaskCommand.execute(&mut app);
    assert!(matches!(r, Err(CommandError::Store(StoreError::Access(_)))));
    assert_eq!(app.task_list.items[0].title, "new");
    assert_eq!(app.task_list.items[0].date, Date(None));
    assert_eq!(app.input_mode, InputMode::EditingExisting);
}

#[test]
fn deleting_removes_the_task_from_the_screen_and_the_store() {
    let mut app = app_with(&["a", "b", "c"]);
    app.task_list.select(Some(1));
    let id = app.task_list.items[1].id;
    assert!(DeleteTaskCommand.execute(&mut app).is_ok());
    assert_eq!(titles(&app), vec!["a", "c"]);
    assert_eq!(app.task_list.selected, Some(1));
    assert!(matches!(
        app.tasks_service.get_task_by_id(id),
        Err(StoreError::NotFound { id: missing }) if missing == id
    ));
    assert_eq!(app.tasks_service.get_record_count().unwrap(), 2);
}

#[test]
fn deleting_the_last_task_moves_the_cursor_up() {
    let mut app = app_with(&["a", "b"]);
    app.task_list.select(Some(1));
    assert!(DeleteTaskCommand.execute(&mut app).is_ok());
    assert_eq!(titles(&app), vec!["a"]);
    assert_eq!(app.task_list.selected, Some(0));
    assert!(DeleteTaskCommand.execute(&mut app).is_ok());
    assert!(app.task_list.items.is_empty());
    assert_eq!(app.task_list.selected, None);
    assert!(app.is_well_formed());
}

#[test]
fn deleting_without_a_cursor_changes_nothing() {
    let mut app = app_with(&["a", "b"]);
    let before = app.task_list.items.clone();
    assert!(DeleteTaskCommand.execute(&mut app).is_ok());
    assert_eq!(app.task_list.items, before);
    assert_eq!(app.task_list.selected, None);
    assert_eq!(app.tasks_service.get_all_tasks().unwrap(), before);
    let mut empty = app_with(&[]);
    assert!(DeleteTaskCommand.execute(&mut empty).is_ok());
    assert_eq!(empty.tasks_service.get_record_count().unwrap(), 0);
}

#[test]
fn deleting_succeeds_though_the_store_fails() {
    let (mut app, raw) = shared_app("failing_delete", &["a", "b"]);
    app.task_list.select(Some(0));
    raw.execute("DROP TABLE tasks", []).unwrap();
    assert!(DeleteTaskCommand.execute(&mut app).is_ok());
    assert_eq!(titles(&app), vec!["b"]);
}

#[test]
fn stopping_clears_the_fields_in_every_mode() {
    let mut app = app_with(&["a"]);
    EnterEditModeCommand.execute(&mut app).unwrap();
    type_in(&mut app, "t", "d", "01-01-25");
    app.input_field = InputField::Description;
    assert!(StopEditingCommand.execute(&mut app).is_ok());
    assert_eq!(app.input_mode, InputMode::Normal);
    assert_eq!(app.input_field, InputField::Description);
    assert_eq!(app.input_title, "");
    assert_eq!(app.input_description, "");
    assert_eq!(app.input_date, "");
    assert_eq!(app.tasks_service.get_record_count().unwrap(), 1);
}

#[test]
fn a_command_reports_what_the_store_answered() {
    assert!(reported(Ok(0)).is_ok());
    assert!(reported(Ok(3)).is_ok());
    let r = reported(Err(StoreError::NotFound { id: 4 }));
    assert!(matches!(r, Err(CommandError::Store(StoreError::NotFound { id: 4 }))));
    let r = reported(Err(StoreError::Access(rusqlite::Error::InvalidQuery)));
    assert!(matches!(r, Err(CommandError::Store(StoreError::Access(_)))));
}

#[test]
fn an_edit_ends_where_the_store_did_its_part() {
    let mut app = app_with(&["a"]);
    app.task_list.select(Some(0));
    StartEditingExistingTaskCommand.execute(&mut app).unwrap();
    type_in(&mut app, "t", "d", "x");
    assert!(committed(&mut app, Ok(1usize)).is_ok());
    assert_eq!(app.input_mode, InputMode::Normal);
    assert_eq!(app.input_title, "t");
    assert_eq!(app.input_description, "d");
    assert_eq!(app.input_date, "x");
    assert_eq!(app.task_list.selected, Some(0));
    assert_eq!(titles(&app), vec!["a"]);
}

#[test]
fn an_edit_goes_on_where_the_store_failed() {
    let mut app = app_with(&["a"]);
    EnterEditModeCommand.execute(&mut app).unwrap();
    type_in(&mut app, "t", "d", "x");
    let r = committed::<usize>(&mut app, Err(StoreError::OutOfOrder));
    assert!(matches!(r, Err(CommandError::Store(StoreError::OutOfOrder))));
    assert_eq!(app.input_mode, InputMode::Editing);
    assert_eq!(app.input_title, "t");
    let r = committed::<()>(&mut app, Err(StoreError::BadPriority { code: 5 }));
    assert!(matches!(r, Err(CommandError::Store(StoreError::BadPriority { code: 5 }))));
    assert_eq!(app.input_mode, InputMode::Editing);
    assert_eq!(titles(&app), vec!["a"]);
}
