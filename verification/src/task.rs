//! The task record and its priority.

use crate::date::{Date, DayView};
use vstd::prelude::*;

verus! {

/// How urgent a task is. The levels are ordered `Low < Medium < High`.
#[derive(Clone, Copy, Debug, PartialEq, Eq, Structural)]
pub enum Priority {
    Low,
    Medium,
    High,
}

impl Priority {
    /// The number under which a level is stored: its position in the
    /// declaration order.
    pub open spec fn code(self) -> int {
        match self {
            Priority::Low => 0,
            Priority::Medium => 1,
            Priority::High => 2,
        }
    }

    /// The level that follows `self`; the highest wraps to the lowest.
    pub open spec fn successor(self) -> Priority {
        match self {
            Priority::Low => Priority::Medium,
            Priority::Medium => Priority::High,
            Priority::High => Priority::Low,
        }
    }

    /// The level stored under `code`, if there is one.
    pub open spec fn of_code(code: int) -> Option<Priority> {
        if code == 0 {
            Some(Priority::Low)
        } else if code == 1 {
            Some(Priority::Medium)
        } else if code == 2 {
            Some(Priority::High)
        } else {
            None
        }
    }

    /// The level that follows this one; the highest wraps to the lowest.
    pub fn next(&self) -> (r: Priority)
        ensures
            r == self.successor(),
    {
        match self {
            Priority::Low => Priority::Medium,
            Priority::Medium => Priority::High,
            Priority::High => Priority::Low,
        }
    }

    /// The number under which the level is stored.
    pub fn to_usize(&self) -> (r: usize)
        ensures
            r == self.code(),
    {
        match self {
            Priority::Low => 0,
            Priority::Medium => 1,
            Priority::High => 2,
        }
    }

    /// The level stored under `code`, if there is one.
    pub fn from_u8(code: u8) -> (r: Option<Priority>)
        ensures
            r == Priority::of_code(code as int),
    {
        if code == 0 {
            Some(Priority::Low)
        } else if code == 1 {
            Some(Priority::Medium)
        } else if code == 2 {
            Some(Priority::High)
        } else {
            None
        }
    }
}

/// The priorities form one cycle through all three levels: the two steps
/// after a level lead to the two other levels, and the third leads back.
pub proof fn lemma_priority_cycle(p: Priority)
    ensures
        p.successor() != p,
        p.successor().successor() != p,
        p.successor().successor() != p.successor(),
        p.successor().successor().successor() == p,
{
}

/// A priority is found again under the code that it is stored under.
pub proof fn lemma_priority_code(p: Priority)
    ensures
        Priority::of_code(p.code()) == Some(p),
{
}

/// One task of the list.
#[derive(Clone, Debug, PartialEq, Eq)]
pub struct Task {
    /// The identity that the store gave the task. It means nothing before the
    /// task has been stored.
    pub id: i32,
    pub title: String,
    pub description: String,
    pub completed: bool,
    pub priority: Priority,
    pub date: Date,
}

/// A task as plain values.
pub struct TaskView {
    pub id: int,
    pub title: Seq<char>,
    pub description: Seq<char>,
    pub completed: bool,
    pub priority: Priority,
    pub date: Option<DayView>,
}

impl View for Task {
    type V = TaskView;

    open spec fn view(&self) -> TaskView {
        TaskView {
            id: self.id as int,
            title: self.title@,
            description: self.description@,
            completed: self.completed,
            priority: self.priority,
            date: self.date@,
        }
    }
}

/// The tasks of a list as plain values, in the list's order.
pub open spec fn task_views(tasks: Seq<Task>) -> Seq<TaskView> {
    Seq::new(tasks.len(), |i: int| tasks[i]@)
}

impl TaskView {
    /// The task that nobody has written anything into yet.
    pub open spec fn blank() -> TaskView {
        TaskView {
            id: 0,
            title: Seq::empty(),
            description: Seq::empty(),
            completed: false,
            priority: Priority::Low,
            date: None,
        }
    }
}

impl Task {
    /// A task with empty texts, open, of the lowest priority and without a
    /// date.
    pub fn new() -> (r: Task)
        ensures
            r@ == TaskView::blank(),
    {
        Task {
            id: 0,
            title: String::new(),
            description: String::new(),
            completed: false,
            priority: Priority::Low,
            date: Date::none(),
        }
    }
}

} // verus!
