use tdi::cli::interactive;
use tdi::cli::Cli;
use tdi::cli::Commands;
use tdi::cli::OutputFormat;
use tdi::cli::ShellStep;
use tdi::store::credential_path;
use tdi::store::file_path;
use tdi::store::get_config_dir;
use tdi::text::decimal;
use tdi::text::join;
use tdi::text::labelled_debug;
use tdi::text::remove_char;
use tdi::text::same_text;

fn cli(command: Commands) -> Cli {
    Cli { command: Some(command) }
}

#[test]
fn output_format_names() {
    assert_eq!(OutputFormat::parse("json"), OutputFormat::Json);
    assert_eq!(OutputFormat::parse("table"), OutputFormat::Table);
    assert_eq!(OutputFormat::parse("lines"), OutputFormat::Lines);
    assert_eq!(OutputFormat::parse(""), OutputFormat::Lines);
    assert_eq!(OutputFormat::parse("Json"), OutputFormat::Lines);
    assert_eq!(OutputFormat::parse("tables"), OutputFormat::Lines);
}

#[test]
fn shell_runs_login_profile_and_task_commands() {
    for command in [
        Commands::Login {},
        Commands::Me { output_format: "lines".to_string() },
        Commands::Show { json: false },
        Commands::Add { task: "x".to_string() },
        Commands::Complete { id: 1 },
        Commands::Reopen { id: 2 },
        Commands::Delete { id: 3 },
    ] {
        assert_eq!(interactive(&cli(command)), ShellStep::Run);
    }
}

#[test]
fn shell_leaves_on_anything_else() {
    for command in [
        Commands::Logout {},
        Commands::Lists { output_format: "lines".to_string() },
        Commands::Tasks { output_format: "lines".to_string(), display_all: true, list_id: 1 },
        Commands::Intr,
    ] {
        assert_eq!(interactive(&cli(command)), ShellStep::Leave);
    }
    assert_eq!(interactive(&Cli { command: None }), ShellStep::Leave);
}

#[test]
fn paths_are_joined_with_a_slash() {
    assert_eq!(credential_path("/home/alice/.config/tdi"), "/home/alice/.config/tdi/tdi.json");
    assert_eq!(file_path("/c", "lists_cache.json"), "/c/lists_cache.json");
    assert_eq!(file_path("", ""), "/");
}

#[test]
fn decimal_numerals() {
    assert_eq!(decimal(0), "0");
    assert_eq!(decimal(7), "7");
    assert_eq!(decimal(10), "10");
    assert_eq!(decimal(1234567890), "1234567890");
    assert_eq!(decimal(u64::MAX), "18446744073709551615");
    let mut out = String::from("n=");
    tdi::text::push_decimal(&mut out, 42);
    assert_eq!(out, "n=42");
    for (n, expected) in [
        (0, "0"),
        (-1, "-1"),
        (i64::MAX, "9223372036854775807"),
        (i64::MIN, "-9223372036854775808"),
    ] {
        let mut out = String::new();
        tdi::text::push_signed_decimal(&mut out, n);
        assert_eq!(out, expected);
    }
}

#[test]
fn join_puts_the_separator_between() {
    assert_eq!(join(&vec![], ' '), "");
    assert_eq!(join(&vec!["a".to_string()], ' '), "a");
    assert_eq!(join(&vec!["a".to_string(), "".to_string(), "b".to_string()], ','), "a,,b");
}

#[test]
fn remove_char_takes_every_occurrence_out() {
    assert_eq!(remove_char("\"a\"b\"\"", '"'), "ab");
    assert_eq!(remove_char("", '"'), "");
    assert_eq!(remove_char("\u{e9}x\u{e9}", '\u{e9}'), "x");
}

#[test]
fn same_text_compares_characters() {
    assert!(same_text("", ""));
    assert!(same_text("code", "code"));
    assert!(!same_text("code", "Code"));
    assert!(!same_text("code", "codes"));
    assert!(!same_text("\u{e9}", "e"));
}

#[test]
fn labelled_debug_quotes_the_value() {
    assert_eq!(labelled_debug("ID: ", "a\"b"), "ID: \"a\\\"b\"");
    assert_eq!(labelled_debug("", ""), "\"\"");
}

#[test]
fn config_dir_ends_with_the_application_name() {
    if let Some(dir) = get_config_dir() {
        assert!(dir.contains("tdi"));
        assert_eq!(credential_path(&dir), format!("{}/tdi.json", dir));
    }
}
