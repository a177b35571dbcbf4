use task_manager::date::Date;
use task_manager::task::{Priority, Task};

#[test]
fn a_new_task_is_blank() {
    let task = Task::new();
    assert_eq!(task.id, 0);
    assert_eq!(task.title, "");
    assert_eq!(task.description, "");
    assert!(!task.completed);
    assert_eq!(task.priority, Priority::Low);
    assert_eq!(task.date, Date(None));
}

#[test]
fn the_priorities_follow_each_other_in_a_cycle() {
    assert_eq!(Priority::Low.next(), Priority::Medium);
    assert_eq!(Priority::Medium.next(), Priority::High);
    assert_eq!(Priority::High.next(), Priority::Low);
}

#[test]
fn a_priority_comes_back_after_three_steps_and_not_before() {
    for p in [Priority::Low, Priority::Medium, Priority::High] {
        assert_ne!(p.next(), p);
        assert_ne!(p.next().next(), p);
        assert_eq!(p.next().next().next(), p);
    }
}

#[test]
fn a_priority_is_stored_under_its_place_in_the_order() {
    assert_eq!(Priority::Low.to_usize(), 0);
    assert_eq!(Priority::Medium.to_usize(), 1);
    assert_eq!(Priority::High.to_usize(), 2);
}

#[test]
fn a_code_names_a_priority_or_none() {
    assert_eq!(Priority::from_u8(0), Some(Priority::Low));
    assert_eq!(Priority::from_u8(1), Some(Priority::Medium));
    assert_eq!(Priority::from_u8(2), Some(Priority::High));
    assert_eq!(Priority::from_u8(3), None);
    assert_eq!(Priority::from_u8(255), None);
}

#[test]
fn a_priority_is_found_again_under_its_code() {
    for p in [Priority::Low, Priority::Medium, Priority::High] {
        assert_eq!(Priority::from_u8(p.to_usize() as u8), Some(p));
    }
}
