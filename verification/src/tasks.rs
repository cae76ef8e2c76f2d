//! The task commands of the kanban board, and the profile as a table.

use vstd::prelude::*;
use vstd::string::StringExecFns;
use crate::json::read_object;
use crate::text::debug_text;
use crate::text::decimal_text;
use crate::text::labelled_debug;
use crate::text::push_decimal;
use crate::text::texts;
use crate::user::user_from_members;
use crate::user::user_of_body;
use crate::user::user_rows;
use crate::user::MissingField;
use crate::user::Rendering;
use crate::user::RenderingView;
pub use crate::user::User;

pub use crate::cli::interactive;

verus! {

/// The number that a task gets before the board has numbered it.
pub const NEW_TASK_ID: u32 = 99;

/// A task on the board.
#[derive(Debug, PartialEq, Eq)]
pub struct Task {
    pub text: String,
    pub state: String,
    pub id: u32,
    /// When the task was last changed, in seconds since the Unix epoch.
    pub updated_at: i64,
}

/// The mathematical value of a [`Task`].
pub struct TaskView {
    pub text: Seq<char>,
    pub state: Seq<char>,
    pub id: u32,
    pub updated_at: i64,
}

impl View for Task {
    type V = TaskView;

    open spec fn view(&self) -> TaskView {
        TaskView { text: self.text@, state: self.state@, id: self.id, updated_at: self.updated_at }
    }
}

impl Task {
    /// A task that is still to do, last changed at the time `updated_at`.
    pub fn new(id: u32, text: String, updated_at: i64) -> (task: Task)
        ensures
            task@ == (TaskView { text: text@, state: "todo"@, id, updated_at }),
    {
        Task { text, state: "todo".to_owned(), id, updated_at }
    }
}

/// What `show_me` yields for a profile.
pub open spec fn shown_me(body: Seq<char>, json: bool) -> Result<RenderingView, Seq<char>> {
    if json {
        Ok(RenderingView::Lines(seq!["Me as JSON: "@ + debug_text(body)]))
    } else {
        match user_of_body(body) {
            Ok(u) => Ok(
                RenderingView::TitledTable { title: ("Items"@, "Details"@), rows: user_rows(u) },
            ),
            Err(name) => Err(name),
        }
    }
}

/// The view of what `show_me` yields.
pub open spec fn shown_result_view(r: Result<Rendering, MissingField>) -> Result<
    RenderingView,
    Seq<char>,
> {
    match r {
        Ok(shown) => Ok(shown@),
        Err(e) => Err(e.name@),
    }
}

/// Turns the body of the profile response into what the terminal shows: one
/// line that quotes the body where JSON is asked for, and otherwise the
/// profile as a table under the title "Items", "Details".
pub fn show_me(body: &str, json: &bool) -> (r: Result<Rendering, MissingField>)
    ensures
        shown_result_view(r) == shown_me(body@, *json),
{
    if *json {
        let mut lines: Vec<String> = Vec::new();
        lines.push(labelled_debug("Me as JSON: ", body));
        assert(texts(lines@) =~= seq!["Me as JSON: "@ + debug_text(body@)]);
        Ok(Rendering::Lines(lines))
    } else {
        let user = match read_object(body) {
            Some(members) => match user_from_members(&members) {
                Ok(u) => u,
                Err(e) => {
                    return Err(e);
                },
            },
            None => User::empty(),
        };
        Ok(
            Rendering::TitledTable {
                title: ("Items".to_owned(), "Details".to_owned()),
                rows: user.as_table(),
            },
        )
    }
}

/// The tasks on the board. The board is not kept anywhere yet: there are
/// none.
pub fn collect_tasks() -> (tasks: Vec<Task>)
    ensures
        tasks@ == Seq::<Task>::empty(),
{
    Vec::new()
}

/// What `show_tasks` prints.
pub open spec fn shown_board(json: bool) -> Seq<char> {
    if json {
        "Tasks as JSON: []"@
    } else {
        "Tasks as a table: Ok([])"@
    }
}

/// The line that shows the board, which is empty.
pub fn show_tasks(json: &bool) -> (line: String)
    ensures
        line@ == shown_board(*json),
{
    if *json {
        "Tasks as JSON: []".to_owned()
    } else {
        "Tasks as a table: Ok([])".to_owned()
    }
}

/// The task that a description makes at the time `now`: still to do, under
/// the number that new tasks get.
pub fn add_task(new_task: &String, now: i64) -> (task: Task)
    ensures
        task@ == (TaskView { text: new_task@, state: "todo"@, id: NEW_TASK_ID, updated_at: now }),
{
    Task::new(NEW_TASK_ID, new_task.clone(), now)
}

fn numbered(caption: &str, id: u32) -> (line: String)
    ensures
        line@ == caption@ + decimal_text(id as nat),
{
    let mut line = caption.to_owned();
    push_decimal(&mut line, id as u64);
    line
}

/// The line that reports a task as completed.
pub fn complete_task(id: &u32) -> (line: String)
    ensures
        line@ == "Completing task: "@ + decimal_text(*id as nat),
{
    numbered("Completing task: ", *id)
}

/// The line that reports a task as reopened.
pub fn reopen_task(id: &u32) -> (line: String)
    ensures
        line@ == "Reopening task: "@ + decimal_text(*id as nat),
{
    numbered("Reopening task: ", *id)
}

/// The line that reports a task as deleted.
pub fn delete_task(id: &u32) -> (line: String)
    ensures
        line@ == "Deleting task: "@ + decimal_text(*id as nat),
{
    numbered("Deleting task: ", *id)
}

} // verus!
