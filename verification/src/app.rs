//! What the task manager holds in memory: the list on screen, the cursor in
//! it, and the texts being typed.

use crate::task::{task_views, Task, TaskView};
use crate::task_db::{all_on_placeholder_day, select_all_request, Request, StoreError, DB};
use vstd::prelude::*;

verus! {

/// What the keys mean at the moment.
#[derive(Clone, Copy, Debug, PartialEq, Eq, Structural)]
pub enum InputMode {
    /// The keys move the cursor and act on the task under it.
    Normal,
    /// The keys write a new task.
    Editing,
    /// The keys rewrite the task under the cursor.
    EditingExisting,
}

/// The text that the keys go to while editing.
#[derive(Clone, Copy, Debug, PartialEq, Eq, Structural)]
pub enum InputField {
    Title,
    Description,
    Date,
}

/// Where the cursor stands after the list has changed its length: where it
/// stood, or on the last task if that place is gone, or nowhere in an empty
/// list.
pub open spec fn clamp_selection(selected: Option<int>, len: int) -> Option<int> {
    match selected {
        Some(i) => if len <= 0 {
            None
        } else if i < len {
            Some(i)
        } else {
            Some(len - 1)
        },
        None => None,
    }
}

/// The tasks on screen and the cursor.
pub struct TaskList {
    pub items: Vec<Task>,
    pub selected: Option<usize>,
}

impl TaskList {
    /// The cursor, where there is one, stands on a task.
    pub open spec fn wf(&self) -> bool {
        self.selected matches Some(i) ==> i < self.items.len()
    }

    /// The cursor as a plain value.
    pub open spec fn cursor(&self) -> Option<int> {
        match self.selected {
            Some(i) => Some(i as int),
            None => None,
        }
    }

    /// An empty list without a cursor.
    pub fn new() -> (r: TaskList)
        ensures
            r.wf(),
            r.items@.len() == 0,
            r.selected is None,
    {
        TaskList { items: Vec::new(), selected: None }
    }

    /// Puts the cursor on the task at `index`, or takes it away. An index
    /// beyond the list puts it on the last task.
    pub fn select(&mut self, index: Option<usize>)
        ensures
            final(self).wf(),
            final(self).items == old(self).items,
            final(self).cursor() == clamp_selection(
                match index {
                    Some(i) => Some(i as int),
                    None => None,
                },
                old(self).items.len() as int,
            ),
    {
        self.selected = clamped(index, self.items.len());
    }

    /// Shows `items` in place of the tasks shown so far. The cursor stays
    /// where it was as far as the new list reaches.
    pub fn replace(&mut self, items: Vec<Task>)
        ensures
            final(self).wf(),
            final(self).items == items,
            final(self).cursor() == clamp_selection(old(self).cursor(), items.len() as int),
    {
        self.selected = clamped(self.selected, items.len());
        self.items = items;
    }
}

/// The cursor `selected` in a list of `len` tasks.
fn clamped(selected: Option<usize>, len: usize) -> (r: Option<usize>)
    ensures
        r matches Some(i) ==> i < len,
        (match r {
            Some(i) => Some(i as int),
            None => None,
        }) == clamp_selection(
            match selected {
                Some(i) => Some(i as int),
                None => None,
            },
            len as int,
        ),
{
    match selected {
        Some(i) => if len == 0 {
            None
        } else if i < len {
            Some(i)
        } else {
            Some(len - 1)
        },
        None => None,
    }
}

/// The state of the task manager.
pub struct App {
    /// The store behind the list.
    pub tasks_service: DB,
    pub task_list: TaskList,
    pub input_mode: InputMode,
    pub input_field: InputField,
    /// The title being typed. It counts only while editing.
    pub input_title: String,
    /// The description being typed.
    pub input_description: String,
    /// The date being typed; empty for a task without a date.
    pub input_date: String,
}

/// The state as plain values.
pub struct AppView {
    pub tasks: Seq<TaskView>,
    pub selected: Option<int>,
    pub input_mode: InputMode,
    pub input_field: InputField,
    pub input_title: Seq<char>,
    pub input_description: Seq<char>,
    pub input_date: Seq<char>,
    /// Where the store behind the list was opened.
    pub location: Option<Seq<char>>,
    /// The statements handed to the store so far.
    pub issued: Seq<Request>,
}

impl AppView {
    /// The cursor, where there is one, stands on a task.
    pub open spec fn wf(self) -> bool {
        self.selected matches Some(i) ==> 0 <= i < self.tasks.len()
    }
}

/// The state after the store was asked for every task.
pub open spec fn list_requested(s: AppView) -> AppView {
    AppView { issued: s.issued.push(select_all_request()), ..s }
}

impl View for App {
    type V = AppView;

    open spec fn view(&self) -> AppView {
        AppView {
            tasks: task_views(self.task_list.items@),
            selected: self.task_list.cursor(),
            input_mode: self.input_mode,
            input_field: self.input_field,
            input_title: self.input_title@,
            input_description: self.input_description@,
            input_date: self.input_date@,
            location: self.tasks_service.location(),
            issued: self.tasks_service.issued(),
        }
    }
}

impl App {
    /// The cursor, where there is one, stands on a task.
    pub open spec fn wf(&self) -> bool {
        self.task_list.wf()
    }

    /// The state at the start: nothing on screen, nothing typed, the keys in
    /// their normal meaning.
    pub fn new(tasks_service: DB) -> (r: App)
        ensures
            r.wf(),
            r@ == (AppView {
                tasks: Seq::empty(),
                selected: None,
                input_mode: InputMode::Normal,
                input_field: InputField::Title,
                input_title: Seq::empty(),
                input_description: Seq::empty(),
                input_date: Seq::empty(),
                location: tasks_service.location(),
                issued: tasks_service.issued(),
            }),
    {
        let r = App {
            tasks_service,
            task_list: TaskList::new(),
            input_mode: InputMode::Normal,
            input_field: InputField::Title,
            input_title: String::new(),
            input_description: String::new(),
            input_date: String::new(),
        };
        assert(r@.tasks =~= Seq::empty());
        r
    }

    /// Whether the cursor, where there is one, stands on a task.
    pub fn is_well_formed(&self) -> (r: bool)
        ensures
            r == self.wf(),
    {
        match self.task_list.selected {
            Some(i) => i < self.task_list.items.len(),
            None => true,
        }
    }

    /// Asks the store for every task and shows what it answers. Where the
    /// store fails, the screen stays as it is.
    pub fn refresh_task_list(&mut self) -> (r: Result<(), StoreError>)
        ensures
            r is Ok || old(self).wf() ==> final(self).wf(),
            match r {
                Ok(()) => {
                    &&& all_on_placeholder_day(final(self)@.tasks)
                    &&& final(self)@ == (AppView {
                        tasks: final(self)@.tasks,
                        selected: clamp_selection(
                            old(self)@.selected,
                            final(self)@.tasks.len() as int,
                        ),
                        ..list_requested(old(self)@)
                    })
                },
                Err(e) => {
                    &&& e is Access || e is BadPriority
                    &&& final(self)@ == list_requested(old(self)@)
                },
            },
    {
        match self.tasks_service.get_all_tasks() {
            Ok(tasks) => {
                self.task_list.replace(tasks);
                Ok(())
            },
            Err(e) => Err(e),
        }
    }
}

} // verus!
