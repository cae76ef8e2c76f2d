//! The tasks of one To Do list.

use vstd::prelude::*;
use vstd::string::StringExecFns;
use crate::cli::format_named;
use crate::cli::OutputFormat;
use crate::json::json_string;
use crate::json::push_string;
use crate::lists::comma_separated;
use crate::lists::entry_views;
use crate::lists::CacheEntryView;
use crate::lists::TodoListIdCache;
use crate::text::decimal;
use crate::text::decimal_text;
use crate::text::push_decimal;
use crate::text::same_text;
use crate::text::texts;

verus! {

/// The name of the file that remembers the short numbers of the tasks.
pub const TASKS_CACHE_FILE: &'static str = "tasks_cache.json";

/// A task as the Graph API describes it.
#[derive(Debug, PartialEq, Eq)]
pub struct TodoTasks {
    pub importance: String,
    pub status: String,
    pub title: String,
    pub id: String,
}

/// The mathematical value of a [`TodoTasks`].
pub struct TaskView {
    pub importance: Seq<char>,
    pub status: Seq<char>,
    pub title: Seq<char>,
    pub id: Seq<char>,
}

impl View for TodoTasks {
    type V = TaskView;

    open spec fn view(&self) -> TaskView {
        TaskView {
            importance: self.importance@,
            status: self.status@,
            title: self.title@,
            id: self.id@,
        }
    }
}

/// The views of tasks.
pub open spec fn task_views(tasks: Seq<TodoTasks>) -> Seq<TaskView> {
    tasks.map_values(|t: TodoTasks| t@)
}

/// The answer of the Graph API to a request for the tasks of a list.
#[derive(Debug, PartialEq, Eq)]
pub struct TodoTaskResponse {
    pub value: Vec<TodoTasks>,
}

/// A task under its short number.
#[derive(Debug, PartialEq, Eq)]
pub struct TaskIdCache {
    pub display_name: String,
    /// The identifier that the Graph API knows the task by.
    pub id: String,
    /// The short number: the place of the task in the answer, from one.
    pub easy_id: String,
}

impl View for TaskIdCache {
    type V = CacheEntryView;

    open spec fn view(&self) -> CacheEntryView {
        CacheEntryView { easy_id: self.easy_id@, display_name: self.display_name@, id: self.id@ }
    }
}

/// The views of task cache entries.
pub open spec fn task_entry_views(entries: Seq<TaskIdCache>) -> Seq<CacheEntryView> {
    entries.map_values(|e: TaskIdCache| e@)
}

/// The cache entry for the task at place `i` of the answer.
pub open spec fn task_entry(tasks: Seq<TaskView>, i: int) -> CacheEntryView {
    CacheEntryView {
        easy_id: decimal_text((i + 1) as nat),
        display_name: tasks[i].title,
        id: tasks[i].id,
    }
}

/// The cache for an answer: one entry for each task, in order, numbered
/// from one.
pub open spec fn task_cache(tasks: Seq<TaskView>) -> Seq<CacheEntryView> {
    Seq::new(tasks.len(), |i: int| task_entry(tasks, i))
}

/// The address that the tasks of a list are fetched from.
pub open spec fn tasks_url_text(real_id: Seq<char>) -> Seq<char> {
    "https://graph.microsoft.com/v1.0/me/todo/lists/"@ + real_id + "/tasks"@
}

/// The address that the tasks of a list are fetched from.
pub fn tasks_url(real_id: &str) -> (url: String)
    ensures
        url@ == tasks_url_text(real_id@),
{
    let mut url = "https://graph.microsoft.com/v1.0/me/todo/lists/".to_owned();
    url.append(real_id);
    url.append("/tasks");
    url
}

/// The identifier of the list that goes by a short number: that of the last
/// cache entry with the number, and the empty string where no entry has it.
pub open spec fn real_list_id(entries: Seq<CacheEntryView>, easy_id: Seq<char>) -> Seq<char>
    decreases entries.len(),
{
    if entries.len() == 0 {
        Seq::empty()
    } else if entries.last().easy_id == easy_id {
        entries.last().id
    } else {
        real_list_id(entries.drop_last(), easy_id)
    }
}

/// Looks up the identifier of the list that goes by the short number
/// `easy_id`.
pub fn get_real_list_id(cache: &Vec<TodoListIdCache>, easy_id: &u16) -> (real_id: String)
    ensures
        real_id@ == real_list_id(entry_views(cache@), decimal_text(*easy_id as nat)),
{
    let wanted = decimal(*easy_id as u64);
    let ghost all = entry_views(cache@);
    let mut real_id = String::new();
    let mut i: usize = 0;
    while i < cache.len()
        invariant
            i <= cache.len(),
            all == entry_views(cache@),
            wanted@ == decimal_text(*easy_id as nat),
            real_id@ == real_list_id(all.take(i as int), wanted@),
        decreases cache.len() - i,
    {
        proof {
            let next = all.take(i + 1);
            assert(next.drop_last() =~= all.take(i as int));
        }
        if same_text(cache[i].easy_id.as_str(), wanted.as_str()) {
            real_id = cache[i].id.clone();
        }
        i += 1;
    }
    assert(all.take(i as int) =~= all);
    real_id
}

/// Numbers the tasks of an answer.
pub fn build_cache(tasks: &Vec<TodoTasks>) -> (cache: Vec<TaskIdCache>)
    ensures
        task_entry_views(cache@) == task_cache(task_views(tasks@)),
{
    let mut cache: Vec<TaskIdCache> = Vec::new();
    let mut i: usize = 0;
    while i < tasks.len()
        invariant
            i <= tasks.len(),
            cache.len() == i,
            forall|j: int| 0 <= j < i ==> cache@[j]@ == task_entry(task_views(tasks@), j),
        decreases tasks.len() - i,
    {
        let mut easy_id = String::new();
        push_decimal(&mut easy_id, (i + 1) as u64);
        cache.push(
            TaskIdCache { display_name: tasks[i].title.clone(), id: tasks[i].id.clone(), easy_id },
        );
        i += 1;
    }
    cache
}

/// The JSON object for a task.
pub open spec fn task_json(task: TaskView) -> Seq<char> {
    "{\"importance\":"@ + json_string(task.importance) + ",\"status\":"@ + json_string(task.status)
        + ",\"title\":"@ + json_string(task.title) + ",\"id\":"@ + json_string(task.id) + "}"@
}

/// The JSON document for an answer.
pub open spec fn response_json(tasks: Seq<TaskView>) -> Seq<char> {
    "{\"value\":["@ + comma_separated(tasks.map_values(|t: TaskView| task_json(t))) + "]}"@
}

/// What is printed for the tasks as JSON: the whole answer as one line where
/// all tasks are asked for, and nothing otherwise.
pub open spec fn json_lines(tasks: Seq<TaskView>, display_all: bool) -> Seq<Seq<char>> {
    if display_all {
        seq![response_json(tasks)]
    } else {
        Seq::empty()
    }
}

/// The line for the task at place `i` where all tasks are shown: its number,
/// its title, and its importance and status.
pub open spec fn full_line(tasks: Seq<TaskView>, i: int) -> Seq<char> {
    seq!['['] + decimal_text((i + 1) as nat) + "] "@ + tasks[i].title + " // ("@
        + tasks[i].importance + seq![':'] + tasks[i].status + seq![')']
}

/// The line for the task at place `i` where only open tasks are shown: its
/// number, its title and its importance.
pub open spec fn open_line(tasks: Seq<TaskView>, i: int) -> Seq<char> {
    seq!['['] + decimal_text((i + 1) as nat) + "] "@ + tasks[i].title + " // ("@
        + tasks[i].importance + seq![')']
}

/// The lines for the first `n` tasks. Where not all are shown, the completed
/// ones are left out; the others keep the number of their place.
pub open spec fn task_lines(tasks: Seq<TaskView>, display_all: bool, n: nat) -> Seq<Seq<char>>
    decreases n,
{
    if n == 0 {
        Seq::empty()
    } else {
        let before = task_lines(tasks, display_all, (n - 1) as nat);
        if display_all {
            before.push(full_line(tasks, n - 1))
        } else if tasks[n - 1].status != "completed"@ {
            before.push(open_line(tasks, n - 1))
        } else {
            before
        }
    }
}

fn push_task_json(out: &mut String, task: &TodoTasks)
    ensures
        final(out)@ == old(out)@ + task_json(task@),
{
    let mut object = "{\"importance\":".to_owned();
    push_string(&mut object, task.importance.as_str());
    object.append(",\"status\":");
    push_string(&mut object, task.status.as_str());
    object.append(",\"title\":");
    push_string(&mut object, task.title.as_str());
    object.append(",\"id\":");
    push_string(&mut object, task.id.as_str());
    object.append("}");
    out.append(object.as_str());
}

/// The tasks as JSON.
pub fn as_json(todo_tasks: TodoTaskResponse, display_all: &bool) -> (lines: Vec<String>)
    ensures
        texts(lines@) == json_lines(task_views(todo_tasks.value@), *display_all),
{
    let mut lines: Vec<String> = Vec::new();
    if !*display_all {
        return lines;
    }
    let tasks = &todo_tasks.value;
    let ghost items = task_views(tasks@).map_values(|t: TaskView| task_json(t));
    let mut out = "{\"value\":[".to_owned();
    let mut i: usize = 0;
    assert(items.skip(0) =~= items);
    while i < tasks.len()
        invariant
            i <= tasks.len(),
            items == task_views(tasks@).map_values(|t: TaskView| task_json(t)),
            out@ + comma_separated(items.skip(i as int)) == "{\"value\":["@ + comma_separated(
                items,
            ),
        decreases tasks.len() - i,
    {
        let ghost remaining = items.skip(i as int);
        proof {
            assert(remaining.skip(1) =~= items.skip(i + 1));
        }
        push_task_json(&mut out, &tasks[i]);
        if i + 1 < tasks.len() {
            out.push(',');
        }
        i += 1;
    }
    out.append("]}");
    lines.push(out);
    lines
}

/// The tasks as a table. No table is drawn for tasks: nothing is printed.
pub fn as_table(todo_tasks: TodoTaskResponse, display_all: &bool) -> (lines: Vec<String>)
    ensures
        lines@ == Seq::<String>::empty(),
{
    Vec::new()
}

/// The tasks as lines.
pub fn as_lines(todo_tasks: TodoTaskResponse, display_all: &bool) -> (lines: Vec<String>)
    ensures
        texts(lines@) == task_lines(
            task_views(todo_tasks.value@),
            *display_all,
            todo_tasks.value@.len(),
        ),
{
    let tasks = &todo_tasks.value;
    let ghost all = task_views(tasks@);
    let mut lines: Vec<String> = Vec::new();
    let mut i: usize = 0;
    while i < tasks.len()
        invariant
            i <= tasks.len(),
            all == task_views(tasks@),
            texts(lines@) == task_lines(all, *display_all, i as nat),
        decreases tasks.len() - i,
    {
        let task = &tasks[i];
        if *display_all || !same_text(task.status.as_str(), "completed") {
            let mut line = String::new();
            line.push('[');
            push_decimal(&mut line, (i + 1) as u64);
            line.append("] ");
            line.append(task.title.as_str());
            line.append(" // (");
            line.append(task.importance.as_str());
            if *display_all {
                line.push(':');
                line.append(task.status.as_str());
            }
            line.push(')');
            proof {
                if *display_all {
                    assert(line@ =~= full_line(all, i as int));
                } else {
                    assert(line@ =~= open_line(all, i as int));
                }
            }
            lines.push(line);
        }
        i += 1;
    }
    lines
}

/// What a request for the tasks of a list comes to: the cache to remember,
/// and the lines to print.
#[derive(Debug, PartialEq, Eq)]
pub struct TasksOutcome {
    /// What is written to the cache file.
    pub cache: Vec<TaskIdCache>,
    /// What is printed.
    pub lines: Vec<String>,
}

/// The lines for an answer in the given format.
pub open spec fn shown_tasks(tasks: Seq<TaskView>, format: OutputFormat, display_all: bool) -> Seq<
    Seq<char>,
> {
    match format {
        OutputFormat::Json => json_lines(tasks, display_all),
        OutputFormat::Table => Seq::empty(),
        OutputFormat::Lines => task_lines(tasks, display_all, tasks.len()),
    }
}

/// Numbers the tasks of an answer and presents them: as JSON for `"json"`,
/// not at all for `"table"`, and as lines for any other format.
pub fn get_todo_tasks(response: TodoTaskResponse, output_format: &str, display_all: &bool) -> (r:
    TasksOutcome)
    ensures
        task_entry_views(r.cache@) == task_cache(task_views(response.value@)),
        texts(r.lines@) == shown_tasks(
            task_views(response.value@),
            format_named(output_format@),
            *display_all,
        ),
{
    let cache = build_cache(&response.value);
    let lines = match OutputFormat::parse(output_format) {
        OutputFormat::Json => as_json(response, display_all),
        OutputFormat::Table => {
            let none = as_table(response, display_all);
            none
        },
        OutputFormat::Lines => as_lines(response, display_all),
    };
    TasksOutcome { cache, lines }
}

} // verus!
