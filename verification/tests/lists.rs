use tdi::lists::as_json;
use tdi::lists::as_lines;
use tdi::lists::build_cache;
use tdi::lists::get_todo_lists;
use tdi::lists::ListsShown;
use tdi::lists::TodoList;
use tdi::lists::TodoListIdCache;
use tdi::lists::TodoListResponse;
use tdi::lists::LISTS_CACHE_FILE;
use tdi::lists::LISTS_URL;

fn list(name: &str, id: &str) -> TodoList {
    TodoList {
        display_name: name.to_string(),
        is_owner: true,
        is_shared: false,
        id: id.to_string(),
        wellknown_list_name: "none".to_string(),
    }
}

fn entry(easy_id: &str, name: &str, id: &str) -> TodoListIdCache {
    TodoListIdCache {
        easy_id: easy_id.to_string(),
        display_name: name.to_string(),
        id: id.to_string(),
    }
}

fn response() -> TodoListResponse {
    TodoListResponse { value: vec![list("Tasks", "AQMk="), list("Groceries \"now\"", "AAMk/2")] }
}

#[test]
fn lists_constants() {
    assert_eq!(LISTS_CACHE_FILE, "lists_cache.json");
    assert_eq!(LISTS_URL, "https://graph.microsoft.com/v1.0/me/todo/lists");
}

#[test]
fn lists_are_numbered_from_one() {
    assert_eq!(
        build_cache(&response().value),
        vec![entry("1", "Tasks", "AQMk="), entry("2", "Groceries \"now\"", "AAMk/2")]
    );
    assert_eq!(build_cache(&vec![]), vec![]);
}

#[test]
fn twelve_lists_get_two_digit_numbers() {
    let lists: Vec<TodoList> = (0..12).map(|i| list(&format!("l{}", i), &format!("id{}", i))).collect();
    let cache = build_cache(&lists);
    assert_eq!(cache[8].easy_id, "9");
    assert_eq!(cache[9].easy_id, "10");
    assert_eq!(cache[11], entry("12", "l11", "id11"));
}

#[test]
fn lists_as_lines() {
    let cache = build_cache(&response().value);
    assert_eq!(as_lines(&cache), vec!["[1] Tasks", "[2] Groceries \"now\""]);
    assert_eq!(as_lines(&vec![]), Vec::<String>::new());
}

#[test]
fn lists_as_json() {
    let cache = build_cache(&response().value);
    assert_eq!(
        as_json(&cache),
        "[{\"easyId\":\"1\",\"displayName\":\"Tasks\",\"id\":\"AQMk=\"},{\"easyId\":\"2\",\"displayName\":\"Groceries \\\"now\\\"\",\"id\":\"AAMk/2\"}]"
    );
    assert_eq!(as_json(&vec![]), "[]");
    assert_eq!(
        as_json(&vec![entry("1", "a", "b")]),
        "[{\"easyId\":\"1\",\"displayName\":\"a\",\"id\":\"b\"}]"
    );
}

#[test]
fn get_todo_lists_picks_the_format() {
    let expected_cache = vec![entry("1", "Tasks", "AQMk="), entry("2", "Groceries \"now\"", "AAMk/2")];
    let lines = get_todo_lists(&response(), "lines");
    assert_eq!(lines.cache, expected_cache);
    assert_eq!(
        lines.shown,
        ListsShown::Lines(vec!["[1] Tasks".to_string(), "[2] Groceries \"now\"".to_string()])
    );
    assert_eq!(get_todo_lists(&response(), "whatever").shown, lines.shown);
    let table = get_todo_lists(&response(), "table");
    assert_eq!(table.cache, expected_cache);
    assert_eq!(table.shown, ListsShown::Table);
    let json = get_todo_lists(&response(), "json");
    assert_eq!(json.cache, expected_cache);
    assert_eq!(json.shown, ListsShown::Json(as_json(&expected_cache)));
}
