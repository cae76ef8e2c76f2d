//! The user's To Do lists, and the short numbers they go by.

use vstd::prelude::*;
use vstd::string::StringExecFns;
use crate::cli::format_named;
use crate::cli::OutputFormat;
use crate::json::json_string;
use crate::json::push_string;
use crate::text::decimal_text;
use crate::text::push_decimal;
use crate::text::texts;

verus! {

/// The name of the file that remembers the short numbers of the lists.
pub const LISTS_CACHE_FILE: &'static str = "lists_cache.json";

/// The address that the lists are fetched from.
pub const LISTS_URL: &'static str = "https://graph.microsoft.com/v1.0/me/todo/lists";

/// A To Do list as the Graph API describes it.
#[derive(Debug, PartialEq, Eq)]
pub struct TodoList {
    pub display_name: String,
    pub is_owner: bool,
    pub is_shared: bool,
    pub id: String,
    pub wellknown_list_name: String,
}

/// The answer of the Graph API to a request for the lists.
#[derive(Debug, PartialEq, Eq)]
pub struct TodoListResponse {
    pub value: Vec<TodoList>,
}

/// A list under its short number.
#[derive(Debug, PartialEq, Eq)]
pub struct TodoListIdCache {
    /// The short number: the place of the list in the answer, from one.
    pub easy_id: String,
    pub display_name: String,
    /// The identifier that the Graph API knows the list by.
    pub id: String,
}

/// The mathematical value of a [`TodoListIdCache`].
pub struct CacheEntryView {
    pub easy_id: Seq<char>,
    pub display_name: Seq<char>,
    pub id: Seq<char>,
}

impl View for TodoListIdCache {
    type V = CacheEntryView;

    open spec fn view(&self) -> CacheEntryView {
        CacheEntryView { easy_id: self.easy_id@, display_name: self.display_name@, id: self.id@ }
    }
}

/// The views of cache entries.
pub open spec fn entry_views(entries: Seq<TodoListIdCache>) -> Seq<CacheEntryView> {
    entries.map_values(|e: TodoListIdCache| e@)
}

/// The cache entry for the list at place `i` of the answer.
pub open spec fn list_entry(lists: Seq<TodoList>, i: int) -> CacheEntryView {
    CacheEntryView {
        easy_id: decimal_text((i + 1) as nat),
        display_name: lists[i].display_name@,
        id: lists[i].id@,
    }
}

/// The cache for an answer: one entry for each list, in order, numbered
/// from one.
pub open spec fn list_cache(lists: Seq<TodoList>) -> Seq<CacheEntryView> {
    Seq::new(lists.len(), |i: int| list_entry(lists, i))
}

/// The line for a cache entry: the short number in brackets, then the name.
pub open spec fn entry_line(entry: CacheEntryView) -> Seq<char> {
    seq!['['] + entry.easy_id + "] "@ + entry.display_name
}

/// The JSON object for a cache entry.
pub open spec fn entry_json(entry: CacheEntryView) -> Seq<char> {
    "{\"easyId\":"@ + json_string(entry.easy_id) + ",\"displayName\":"@ + json_string(
        entry.display_name,
    ) + ",\"id\":"@ + json_string(entry.id) + "}"@
}

/// JSON texts separated by commas.
pub open spec fn comma_separated(items: Seq<Seq<char>>) -> Seq<char>
    decreases items.len(),
{
    if items.len() == 0 {
        Seq::empty()
    } else if items.len() == 1 {
        items[0]
    } else {
        items[0] + seq![','] + comma_separated(items.skip(1))
    }
}

/// The JSON array of the cache entries.
pub open spec fn cache_json(entries: Seq<CacheEntryView>) -> Seq<char> {
    seq!['['] + comma_separated(entries.map_values(|e: CacheEntryView| entry_json(e))) + seq![']']
}

/// How the lists are shown.
#[derive(Debug, PartialEq, Eq)]
pub enum ListsShown {
    /// One line for each list.
    Lines(Vec<String>),
    /// The cache as one JSON array.
    Json(String),
    /// The cache as a table with the columns ID, Display Name and Long ID.
    Table,
}

/// The mathematical value of a [`ListsShown`].
pub enum ListsShownView {
    Lines(Seq<Seq<char>>),
    Json(Seq<char>),
    Table,
}

impl View for ListsShown {
    type V = ListsShownView;

    open spec fn view(&self) -> ListsShownView {
        match self {
            ListsShown::Lines(lines) => ListsShownView::Lines(texts(lines@)),
            ListsShown::Json(document) => ListsShownView::Json(document@),
            ListsShown::Table => ListsShownView::Table,
        }
    }
}

/// The cache in the given format.
pub open spec fn shown_lists(entries: Seq<CacheEntryView>, format: OutputFormat) -> ListsShownView {
    match format {
        OutputFormat::Json => ListsShownView::Json(cache_json(entries)),
        OutputFormat::Table => ListsShownView::Table,
        OutputFormat::Lines => ListsShownView::Lines(
            entries.map_values(|e: CacheEntryView| entry_line(e)),
        ),
    }
}

/// Numbers the lists of an answer.
pub fn build_cache(lists: &Vec<TodoList>) -> (cache: Vec<TodoListIdCache>)
    ensures
        entry_views(cache@) == list_cache(lists@),
{
    let mut cache: Vec<TodoListIdCache> = Vec::new();
    let mut i: usize = 0;
    while i < lists.len()
        invariant
            i <= lists.len(),
            cache.len() == i,
            forall|j: int| 0 <= j < i ==> cache@[j]@ == list_entry(lists@, j),
        decreases lists.len() - i,
    {
        let mut easy_id = String::new();
        push_decimal(&mut easy_id, (i + 1) as u64);
        cache.push(
            TodoListIdCache {
                easy_id,
                display_name: lists[i].display_name.clone(),
                id: lists[i].id.clone(),
            },
        );
        i += 1;
    }
    cache
}

/// The cache as lines.
pub fn as_lines(todo_list_id_cache: &Vec<TodoListIdCache>) -> (lines: Vec<String>)
    ensures
        texts(lines@) == entry_views(todo_list_id_cache@).map_values(
            |e: CacheEntryView| entry_line(e),
        ),
{
    let mut lines: Vec<String> = Vec::new();
    let mut i: usize = 0;
    while i < todo_list_id_cache.len()
        invariant
            i <= todo_list_id_cache.len(),
            lines.len() == i,
            forall|j: int| 0 <= j < i ==> lines@[j]@ == entry_line(todo_list_id_cache@[j]@),
        decreases todo_list_id_cache.len() - i,
    {
        let entry = &todo_list_id_cache[i];
        let mut line = String::new();
        line.push('[');
        line.append(entry.easy_id.as_str());
        line.append("] ");
        line.append(entry.display_name.as_str());
        lines.push(line);
        i += 1;
    }
    lines
}

fn push_entry_json(out: &mut String, entry: &TodoListIdCache)
    ensures
        final(out)@ == old(out)@ + entry_json(entry@),
{
    let mut object = "{\"easyId\":".to_owned();
    push_string(&mut object, entry.easy_id.as_str());
    object.append(",\"displayName\":");
    push_string(&mut object, entry.display_name.as_str());
    object.append(",\"id\":");
    push_string(&mut object, entry.id.as_str());
    object.append("}");
    out.append(object.as_str());
}

/// The cache as one JSON array.
pub fn as_json(todo_list_id_cache: &Vec<TodoListIdCache>) -> (document: String)
    ensures
        document@ == cache_json(entry_views(todo_list_id_cache@)),
{
    let ghost items = entry_views(todo_list_id_cache@).map_values(
        |e: CacheEntryView| entry_json(e),
    );
    let mut out = String::new();
    out.push('[');
    let mut i: usize = 0;
    assert(items.skip(0) =~= items);
    while i < todo_list_id_cache.len()
        invariant
            i <= todo_list_id_cache.len(),
            items == entry_views(todo_list_id_cache@).map_values(
                |e: CacheEntryView| entry_json(e),
            ),
            out@ + comma_separated(items.skip(i as int)) == seq!['['] + comma_separated(items),
        decreases todo_list_id_cache.len() - i,
    {
        let ghost remaining = items.skip(i as int);
        proof {
            assert(remaining.skip(1) =~= items.skip(i + 1));
        }
        push_entry_json(&mut out, &todo_list_id_cache[i]);
        if i + 1 < todo_list_id_cache.len() {
            out.push(',');
        }
        i += 1;
    }
    out.push(']');
    out
}

/// What a request for the lists comes to: the cache to remember, and what to
/// show.
#[derive(Debug, PartialEq, Eq)]
pub struct ListsOutcome {
    /// What is written to the cache file, so that later commands can go by
    /// the short numbers.
    pub cache: Vec<TodoListIdCache>,
    /// What is shown.
    pub shown: ListsShown,
}

/// Numbers the lists of an answer and presents them: as JSON for `"json"`,
/// as a table for `"table"`, and as lines for any other format.
pub fn get_todo_lists(response: &TodoListResponse, output_format: &str) -> (r: ListsOutcome)
    ensures
        entry_views(r.cache@) == list_cache(response.value@),
        r.shown@ == shown_lists(list_cache(response.value@), format_named(output_format@)),
{
    let cache = build_cache(&response.value);
    let shown = match OutputFormat::parse(output_format) {
        OutputFormat::Json => ListsShown::Json(as_json(&cache)),
        OutputFormat::Table => ListsShown::Table,
        OutputFormat::Lines => ListsShown::Lines(as_lines(&cache)),
    };
    ListsOutcome { cache, shown }
}

} // verus!
