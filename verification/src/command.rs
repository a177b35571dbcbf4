//! The commands of the task manager. Each one is a single step of the state
//! in memory, together with the statement that tells the store about it.
//!
//! A command that fails stops where it failed: what it had changed by then
//! stays changed, and what it had yet to do is left undone. Two commands,
//! the one that toggles the status and the one that deletes, go on when the
//! store fails and report success.

use crate::app::{clamp_selection, list_requested, App, AppView, InputField, InputMode};
use crate::date::{date_text, parse_text, Date, DateError, DayView};
use crate::task::{Task, TaskView};
use crate::task_db::{
    all_on_placeholder_day, completed_request, delete_request, insert_request, priority_request,
    texts_request, StoreError,
};
use vstd::prelude::*;

verus! {

/// Why a command failed.
#[derive(Debug)]
pub enum CommandError {
    /// The date that was typed is no date.
    InvalidDate(DateError),
    /// The store failed.
    Store(StoreError),
}

/// One thing that the user can ask for.
pub trait Command {
    /// Carries the command out on `app`.
    fn execute(&mut self, app: &mut App) -> (r: Result<(), CommandError>)
        requires
            old(app).wf(),
        ensures
            final(app).wf(),
    ;
}

/// The date that the text in the date field stands for: none where the field
/// is empty.
pub open spec fn typed_date(text: Seq<char>) -> Result<Option<DayView>, DateError> {
    if text.len() == 0 {
        Ok(None)
    } else {
        match parse_text(text) {
            Ok(day) => Ok(Some(day)),
            Err(e) => Err(e),
        }
    }
}

/// The state with the three fields emptied.
pub open spec fn fields_emptied(s: AppView) -> AppView {
    AppView {
        input_title: Seq::empty(),
        input_description: Seq::empty(),
        input_date: Seq::empty(),
        ..s
    }
}

/// The state after the keys were set to write a new task.
pub open spec fn edit_mode_entered(s: AppView) -> AppView {
    AppView { input_mode: InputMode::Editing, input_field: InputField::Title, ..s }
}

/// The task that the three fields describe.
pub open spec fn typed_task(s: AppView) -> TaskView {
    TaskView {
        title: s.input_title,
        description: s.input_description,
        date: typed_date(s.input_date)->Ok_0,
        ..TaskView::blank()
    }
}

/// The state after the typed task was handed to the store: the fields are
/// empty and the statement is on record.
pub open spec fn task_submitted(s: AppView) -> AppView {
    AppView { issued: s.issued.push(insert_request(typed_task(s))), ..fields_emptied(s) }
}

/// The state after the task under the cursor changed between open and
/// completed.
pub open spec fn status_toggled(s: AppView) -> AppView {
    match s.selected {
        Some(i) => {
            let task = s.tasks[i];
            AppView {
                tasks: s.tasks.update(i, TaskView { completed: !task.completed, ..task }),
                issued: s.issued.push(completed_request(task.id, !task.completed)),
                ..s
            }
        },
        None => s,
    }
}

/// The state after the task under the cursor moved on to the next priority.
pub open spec fn priority_advanced(s: AppView) -> AppView {
    match s.selected {
        Some(i) => {
            let task = s.tasks[i];
            AppView {
                tasks: s.tasks.update(i, TaskView { priority: task.priority.successor(), ..task }),
                issued: s.issued.push(priority_request(task.id, task.priority.successor())),
                ..s
            }
        },
        None => s,
    }
}

/// The state after the task under the cursor was laid out in the fields for
/// rewriting.
pub open spec fn editing_started(s: AppView) -> AppView {
    match s.selected {
        Some(i) => AppView {
            input_title: s.tasks[i].title,
            input_description: s.tasks[i].description,
            input_date: date_text(s.tasks[i].date),
            input_mode: InputMode::EditingExisting,
            input_field: InputField::Title,
            ..s
        },
        None => s,
    }
}

/// The state after the texts of the task under the cursor were overwritten
/// from the fields and the typed date turned out to be none: the date of the
/// task is as it was, and the fields are empty.
pub open spec fn rewrite_rejected(s: AppView) -> AppView {
    let i = s.selected->0;
    let task = s.tasks[i];
    AppView {
        tasks: s.tasks.update(
            i,
            TaskView { title: s.input_title, description: s.input_description, ..task },
        ),
        ..fields_emptied(s)
    }
}

/// The task under the cursor as the fields rewrite it.
pub open spec fn rewritten_task(s: AppView) -> TaskView {
    TaskView {
        title: s.input_title,
        description: s.input_description,
        date: typed_date(s.input_date)->Ok_0,
        ..s.tasks[s.selected->0]
    }
}

/// The state after the task under the cursor was rewritten from the fields
/// and handed to the store.
pub open spec fn rewrite_submitted(s: AppView) -> AppView {
    AppView {
        tasks: s.tasks.update(s.selected->0, rewritten_task(s)),
        issued: s.issued.push(texts_request(rewritten_task(s))),
        ..fields_emptied(s)
    }
}

/// The state after the task under the cursor was removed.
pub open spec fn task_deleted(s: AppView) -> AppView {
    match s.selected {
        Some(i) => AppView {
            tasks: s.tasks.remove(i),
            selected: clamp_selection(Some(i), s.tasks.len() - 1),
            issued: s.issued.push(delete_request(s.tasks[i].id)),
            ..s
        },
        None => s,
    }
}

/// The state after editing was given up.
pub open spec fn editing_stopped(s: AppView) -> AppView {
    AppView { input_mode: InputMode::Normal, ..fields_emptied(s) }
}

/// Toggling the status changes the task under the cursor between open and
/// completed, and toggling it again gives every task back as it was.
pub proof fn lemma_status_toggled_twice(s: AppView)
    requires
        s.wf(),
    ensures
        s.selected matches Some(i) ==> status_toggled(s).tasks[i].completed != s.tasks[i].completed,
        status_toggled(status_toggled(s)).tasks == s.tasks,
        status_toggled(status_toggled(s)).selected == s.selected,
{
}

/// Advancing the priority three times gives every task back as it was; after
/// one step or two, the task under the cursor has another priority than at
/// the start.
pub proof fn lemma_priority_advanced_thrice(s: AppView)
    requires
        s.wf(),
    ensures
        s.selected matches Some(i) ==> {
            &&& priority_advanced(s).tasks[i].priority != s.tasks[i].priority
            &&& priority_advanced(priority_advanced(s)).tasks[i].priority != s.tasks[i].priority
        },
        priority_advanced(priority_advanced(priority_advanced(s))).tasks == s.tasks,
{
}

/// Giving up an edit changes no task: whatever was typed into the fields
/// after a task was laid out for rewriting, the tasks, the cursor and the
/// record of statements are afterwards what they were before.
pub proof fn lemma_cancelled_edit_changes_no_task(
    s: AppView,
    title: Seq<char>,
    description: Seq<char>,
    date: Seq<char>,
    field: InputField,
)
    requires
        s.wf(),
    ensures
        ({
            let typed = AppView {
                input_title: title,
                input_description: description,
                input_date: date,
                input_field: field,
                ..editing_started(s)
            };
            &&& editing_stopped(typed).tasks == s.tasks
            &&& editing_stopped(typed).selected == s.selected
            &&& editing_stopped(typed).issued == s.issued
            &&& editing_stopped(typed).input_mode == InputMode::Normal
        }),
{
}

/// The store is told what memory holds: the statement that a command puts on
/// record names the task under the cursor by its id and carries the value
/// that the task has in memory afterwards.
pub proof fn lemma_store_is_told_what_memory_holds(s: AppView)
    requires
        s.wf(),
        s.selected is Some,
    ensures
        ({
            let i = s.selected->0;
            let after = status_toggled(s).tasks[i];
            status_toggled(s).issued.last() == completed_request(after.id, after.completed)
        }),
        ({
            let i = s.selected->0;
            let after = priority_advanced(s).tasks[i];
            priority_advanced(s).issued.last() == priority_request(after.id, after.priority)
        }),
        ({
            let i = s.selected->0;
            let after = rewrite_submitted(s).tasks[i];
            rewrite_submitted(s).issued.last() == texts_request(after)
        }),
        task_deleted(s).issued.last() == delete_request(s.tasks[s.selected->0].id),
        task_deleted(s).tasks.len() == s.tasks.len() - 1,
{
}

/// Takes the text out of a field and leaves the field empty.
fn take_field(field: &mut String) -> (r: String)
    ensures
        r@ == old(field)@,
        final(field)@ == Seq::<char>::empty(),
{
    let mut text = String::new();
    std::mem::swap(&mut text, field);
    text
}

/// Takes the text out of the date field and reads it: an empty field gives
/// the date without a day.
fn take_date(field: &mut String) -> (r: Result<Date, DateError>)
    ensures
        final(field)@ == Seq::<char>::empty(),
        match typed_date(old(field)@) {
            Ok(date) => r matches Ok(d) && d@ == date,
            Err(e) => r == Err::<Date, DateError>(e),
        },
{
    if field.as_str().is_empty() {
        Ok(Date::none())
    } else {
        Date::try_from(take_field(field))
    }
}

/// What a command reports after the store has answered.
pub fn reported(outcome: Result<usize, StoreError>) -> (r: Result<(), CommandError>)
    ensures
        match outcome {
            Ok(_) => r is Ok,
            Err(e) => r matches Err(CommandError::Store(f)) && f == e,
        },
{
    match outcome {
        Ok(_) => Ok(()),
        Err(e) => Err(CommandError::Store(e)),
    }
}

/// Ends an edit as the store has answered. Where the store did its part, the
/// keys get their normal meaning back. Where it failed, the failure is
/// reported and nothing changes.
pub fn committed<T>(app: &mut App, outcome: Result<T, StoreError>) -> (r: Result<(), CommandError>)
    ensures
        match outcome {
            Ok(_) => r is Ok && *final(app) == (App { input_mode: InputMode::Normal, ..*old(app) }),
            Err(e) => r matches Err(CommandError::Store(f)) && f == e && *final(app) == *old(app),
        },
{
    match outcome {
        Ok(_) => {
            app.input_mode = InputMode::Normal;
            Ok(())
        },
        Err(e) => Err(CommandError::Store(e)),
    }
}

/// Sets the keys to write a new task, starting with its title.
pub struct EnterEditModeCommand;

impl Command for EnterEditModeCommand {
    fn execute(&mut self, app: &mut App) -> (r: Result<(), CommandError>)
        ensures
            r is Ok,
            final(app)@ == edit_mode_entered(old(app)@),
    {
        app.input_mode = InputMode::Editing;
        app.input_field = InputField::Title;
        Ok(())
    }
}

/// Makes a task of what was typed into the fields, stores it, asks the store
/// for every task and shows what it answers. The fields are emptied before
/// the date is read, so a date that is none loses what was typed. Where the
/// store fails to take the task, it is not asked for the list.
pub struct AddTaskCommand;

impl Command for AddTaskCommand {
    fn execute(&mut self, app: &mut App) -> (r: Result<(), CommandError>)
        ensures
            match typed_date(old(app)@.input_date) {
                Err(e) => {
                    &&& r matches Err(CommandError::InvalidDate(f))
                    &&& f == e
                    &&& final(app)@ == fields_emptied(old(app)@)
                    &&& final(app)@.tasks == old(app)@.tasks
                    &&& final(app)@.issued == old(app)@.issued
                },
                Ok(_) => match r {
                    Ok(()) => {
                        &&& all_on_placeholder_day(final(app)@.tasks)
                        &&& final(app)@ == (AppView {
                            tasks: final(app)@.tasks,
                            selected: clamp_selection(
                                old(app)@.selected,
                                final(app)@.tasks.len() as int,
                            ),
                            input_mode: InputMode::Normal,
                            ..list_requested(task_submitted(old(app)@))
                        })
                    },
                    Err(e) => {
                        &&& e matches CommandError::Store(f)
                        &&& f is Access || f is IdOutOfRange || f is BadPriority
                        &&& final(app)@ == task_submitted(old(app)@) || final(app)@
                            == list_requested(task_submitted(old(app)@))
                        &&& f is IdOutOfRange ==> final(app)@ == task_submitted(old(app)@)
                        &&& f is BadPriority ==> final(app)@ == list_requested(
                            task_submitted(old(app)@),
                        )
                    },
                },
            },
    {
        let mut t = Task::new();
        t.title = take_field(&mut app.input_title);
        t.description = take_field(&mut app.input_description);
        match take_date(&mut app.input_date) {
            Ok(date) => {
                t.date = date;
            },
            Err(e) => {
                return Err(CommandError::InvalidDate(e));
            },
        }
        let shown = match app.tasks_service.insert_task(&t) {
            Ok(_) => app.refresh_task_list(),
            Err(e) => Err(e),
        };
        committed(app, shown)
    }
}

/// Changes the task under the cursor between open and completed, first in
/// memory and then in the store. A store that fails is not reported.
pub struct ToggleTaskStatusCommand;

impl Command for ToggleTaskStatusCommand {
    fn execute(&mut self, app: &mut App) -> (r: Result<(), CommandError>)
        ensures
            r is Ok,
            final(app)@ == status_toggled(old(app)@),
    {
        if let Some(index) = app.task_list.selected {
            let completed = !app.task_list.items[index].completed;
            app.task_list.items[index].completed = completed;
            let id = app.task_list.items[index].id;
            let _ = app.tasks_service.toggle_task_completed(id, completed);
            assert(app@.tasks =~= status_toggled(old(app)@).tasks);
        }
        Ok(())
    }
}

/// Moves the task under the cursor on to the next priority, first in memory
/// and then in the store. Where the store fails, memory keeps the new
/// priority and the failure is reported.
pub struct ToggleItemPriorityCommand;

impl Command for ToggleItemPriorityCommand {
    fn execute(&mut self, app: &mut App) -> (r: Result<(), CommandError>)
        ensures
            final(app)@ == priority_advanced(old(app)@),
            old(app)@.selected is None ==> r is Ok,
            r matches Err(e) ==> e matches CommandError::Store(f) && f is Access,
    {
        if let Some(index) = app.task_list.selected {
            let priority = app.task_list.items[index].priority.next();
            app.task_list.items[index].priority = priority;
            let id = app.task_list.items[index].id;
            let outcome = app.tasks_service.update_task_priority(id, priority);
            assert(app@.tasks =~= priority_advanced(old(app)@).tasks);
            reported(outcome)
        } else {
            Ok(())
        }
    }
}

/// Lays the task under the cursor out in the fields and sets the keys to
/// rewrite it, starting with its title. The store is not asked.
pub struct StartEditingExistingTaskCommand;

impl Command for StartEditingExistingTaskCommand {
    fn execute(&mut self, app: &mut App) -> (r: Result<(), CommandError>)
        ensures
            r is Ok,
            final(app)@ == editing_started(old(app)@),
    {
        if let Some(index) = app.task_list.selected {
            app.input_title = app.task_list.items[index].title.clone();
            app.input_description = app.task_list.items[index].description.clone();
            app.input_date = app.task_list.items[index].date.to_text();
            app.input_mode = InputMode::EditingExisting;
            app.input_field = InputField::Title;
        }
        Ok(())
    }
}

/// Overwrites the task under the cursor with what the fields hold, tells the
/// store its new texts and gives the keys their normal meaning back. An empty
/// date field takes the date away. Without a cursor only the keys change.
pub struct FinishEditingExistingTaskCommand;

impl Command for FinishEditingExistingTaskCommand {
    fn execute(&mut self, app: &mut App) -> (r: Result<(), CommandError>)
        ensures
            match old(app)@.selected {
                None => r is Ok && final(app)@ == (AppView {
                    input_mode: InputMode::Normal,
                    ..old(app)@
                }),
                Some(_) => match typed_date(old(app)@.input_date) {
                    Err(e) => {
                        &&& r matches Err(CommandError::InvalidDate(f))
                        &&& f == e
                        &&& final(app)@ == rewrite_rejected(old(app)@)
                    },
                    Ok(_) => match r {
                        Ok(()) => final(app)@ == (AppView {
                            input_mode: InputMode::Normal,
                            ..rewrite_submitted(old(app)@)
                        }),
                        Err(e) => {
                            &&& e matches CommandError::Store(f)
                            &&& f is Access
                            &&& final(app)@ == rewrite_submitted(old(app)@)
                        },
                    },
                },
            },
    {
        if let Some(index) = app.task_list.selected {
            app.task_list.items[index].title = take_field(&mut app.input_title);
            app.task_list.items[index].description = take_field(&mut app.input_description);
            match take_date(&mut app.input_date) {
                Ok(date) => {
                    app.task_list.items[index].date = date;
                },
                Err(e) => {
                    assert(app@.tasks =~= rewrite_rejected(old(app)@).tasks);
                    return Err(CommandError::InvalidDate(e));
                },
            }
            let outcome = app.tasks_service.update_task(&app.task_list.items[index]);
            assert(app@.tasks =~= rewrite_submitted(old(app)@).tasks);
            committed(app, outcome)
        } else {
            app.input_mode = InputMode::Normal;
            Ok(())
        }
    }
}

/// Removes the task under the cursor from the store and then from the
/// screen. A store that fails is not reported, and the task leaves the screen
/// all the same.
pub struct DeleteTaskCommand;

impl Command for DeleteTaskCommand {
    fn execute(&mut self, app: &mut App) -> (r: Result<(), CommandError>)
        ensures
            r is Ok,
            final(app)@ == task_deleted(old(app)@),
            old(app)@.selected is None ==> final(app)@ == old(app)@,
    {
        if let Some(index) = app.task_list.selected {
            let id = app.task_list.items[index].id;
            let _ = app.tasks_service.delete_task(id);
            app.task_list.items.remove(index);
            app.task_list.select(Some(index));
            assert(app@.tasks =~= task_deleted(old(app)@).tasks);
        }
        Ok(())
    }
}

/// Gives up what was typed: empties the fields and gives the keys their
/// normal meaning back.
pub struct StopEditingCommand;

impl Command for StopEditingCommand {
    fn execute(&mut self, app: &mut App) -> (r: Result<(), CommandError>)
        ensures
            r is Ok,
            final(app)@ == editing_stopped(old(app)@),
    {
        app.input_mode = InputMode::Normal;
        app.input_title = String::new();
        app.input_description = String::new();
        app.input_date = String::new();
        Ok(())
    }
}

} // verus!
