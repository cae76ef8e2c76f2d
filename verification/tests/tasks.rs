use tdi::tasks::add_task;
use tdi::tasks::collect_tasks;
use tdi::tasks::complete_task;
use tdi::tasks::delete_task;
use tdi::tasks::reopen_task;
use tdi::tasks::show_me;
use tdi::tasks::show_tasks;
use tdi::tasks::Task;
use tdi::tasks::NEW_TASK_ID;
use tdi::user::MissingField;
use tdi::user::Rendering;

const PROFILE: &str = "{\"displayName\":\"Megan Bowen\",\"givenName\":\"Megan\",\"jobTitle\":null,\"mail\":\"MeganB@contoso.com\",\"mobilePhone\":null,\"officeLocation\":\"12/1110\",\"surname\":\"Bowen\",\"userPrincipalName\":\"MeganB@contoso.com\",\"id\":\"48d3\"}";

fn row(caption: &str, value: &str) -> (String, String) {
    (caption.to_string(), value.to_string())
}

#[test]
fn new_task_is_to_do() {
    let task = Task::new(7, "Buy milk".to_string(), 1_650_000_000);
    assert_eq!(
        task,
        Task {
            text: "Buy milk".to_string(),
            state: "todo".to_string(),
            id: 7,
            updated_at: 1_650_000_000,
        }
    );
    assert_eq!(Task::new(0, String::new(), -1).updated_at, -1);
}

#[test]
fn added_task_gets_the_placeholder_number() {
    let task = add_task(&"Write report".to_string(), 12);
    assert_eq!(NEW_TASK_ID, 99);
    assert_eq!(
        task,
        Task { text: "Write report".to_string(), state: "todo".to_string(), id: 99, updated_at: 12 }
    );
}

#[test]
fn the_board_is_empty() {
    assert!(collect_tasks().is_empty());
    assert_eq!(show_tasks(&true), "Tasks as JSON: []");
    assert_eq!(show_tasks(&false), "Tasks as a table: Ok([])");
}

#[test]
fn task_commands_report_the_number() {
    assert_eq!(complete_task(&5), "Completing task: 5");
    assert_eq!(reopen_task(&0), "Reopening task: 0");
    assert_eq!(delete_task(&4294967295), "Deleting task: 4294967295");
    assert_eq!(complete_task(&1000), "Completing task: 1000");
}

#[test]
fn me_as_json_quotes_the_body() {
    assert_eq!(
        show_me("{\"id\":\"48d3\"}", &true),
        Ok(Rendering::Lines(vec!["Me as JSON: \"{\\\"id\\\":\\\"48d3\\\"}\"".to_string()]))
    );
    assert_eq!(show_me("", &true), Ok(Rendering::Lines(vec!["Me as JSON: \"\"".to_string()])));
}

#[test]
fn me_as_titled_table() {
    assert_eq!(
        show_me(PROFILE, &false),
        Ok(Rendering::TitledTable {
            title: row("Items", "Details"),
            rows: vec![
                row("Display Name", "Megan Bowen"),
                row("Given Name", "Megan"),
                row("Surname", "Bowen"),
                row("ID", "48d3"),
                row("Mail", "MeganB@contoso.com"),
                row("Mobile Phone", "null"),
                row("Office Location", "12/1110"),
                row("User Principal Name", "MeganB@contoso.com"),
            ],
        })
    );
}

#[test]
fn me_as_table_needs_every_member() {
    assert_eq!(
        show_me("{\"displayName\":\"a\"}", &false),
        Err(MissingField { name: "givenName".to_string() })
    );
    match show_me("[]", &false) {
        Ok(Rendering::TitledTable { rows, .. }) => {
            assert_eq!(rows.len(), 8);
            assert!(rows.iter().all(|(_, value)| value.is_empty()));
        }
        other => panic!("expected a table, got {:?}", other),
    }
}
