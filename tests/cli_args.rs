use todo_cli::cli::{Command, Config};
use todo_cli::{Priority, SortOrder, TodoStatus};

fn args(words: &[&str]) -> Vec<String> {
    words.iter().map(|w| w.to_string()).collect()
}

fn parse(words: &[&str]) -> Result<Command, &'static str> {
    Config::new(args(words)).map(|c| c.command)
}

#[test]
fn too_few_arguments() {
    assert_eq!(parse(&["todo"]).err(), Some("not enough arguments"));
    assert_eq!(parse(&[]).err(), Some("not enough arguments"));
}

#[test]
fn help_and_list() {
    assert!(matches!(parse(&["todo", "help"]), Ok(Command::Help)));
    assert!(matches!(parse(&["todo", "list"]), Ok(Command::List)));
}

#[test]
fn add_takes_three_arguments() {
    match parse(&["todo", "add", "Buy milk", "HIGH", "from store"]) {
        Ok(Command::Add { name, priority, description }) => {
            assert_eq!(name, "Buy milk");
            assert_eq!(priority, "HIGH");
            assert_eq!(description, "from store");
        }
        other => panic!("unexpected {:?}", other),
    }
    assert_eq!(
        parse(&["todo", "add", "x", "high"]).err(),
        Some("Usage: todo-cli add <name> <priority> <description>")
    );
}

#[test]
fn delete_joins_and_trims_name() {
    match parse(&["todo", "delete", " Buy", "milk  "]) {
        Ok(Command::Delete { name }) => assert_eq!(name, "Buy milk"),
        other => panic!("unexpected {:?}", other),
    }
    assert_eq!(parse(&["todo", "delete"]).err(), Some("Usage: todo-cli delete <name>"));
}

#[test]
fn done_joins_name() {
    match parse(&["todo", "done", "a", "b", "c"]) {
        Ok(Command::Done { name }) => assert_eq!(name, "a b c"),
        other => panic!("unexpected {:?}", other),
    }
    assert_eq!(parse(&["todo", "done"]).err(), Some("Usage: todo-cli done <name>"));
}

#[test]
fn list_priority_words() {
    assert!(matches!(parse(&["todo", "list-priority", "High"]), Ok(Command::ListPriority { priority: Priority::High })));
    assert!(matches!(parse(&["todo", "list-priority", "low"]), Ok(Command::ListPriority { priority: Priority::Low })));
    assert_eq!(parse(&["todo", "list-priority", "urgent"]).err(), Some("Invalid priority. Use high, medium, or low."));
    assert_eq!(parse(&["todo", "list-priority"]).err(), Some("Usage: todo-cli list-priority <high|medium|low>"));
}

#[test]
fn list_status_words() {
    assert!(matches!(parse(&["todo", "list-status", "COMPLETED"]), Ok(Command::ListStatus { status: TodoStatus::Completed })));
    assert!(matches!(parse(&["todo", "list-status", "pending"]), Ok(Command::ListStatus { status: TodoStatus::Pending })));
    assert_eq!(parse(&["todo", "list-status", "open"]).err(), Some("Invalid status. Use pending or completed."));
    assert_eq!(parse(&["todo", "list-status"]).err(), Some("Usage: todo-cli list-status <pending|completed>"));
}

#[test]
fn sort_words() {
    assert!(matches!(parse(&["todo", "sort", "High-To-Low"]), Ok(Command::Sort { order: SortOrder::HighToLow })));
    assert!(matches!(parse(&["todo", "sort", "low-to-high"]), Ok(Command::Sort { order: SortOrder::LowToHigh })));
    assert_eq!(parse(&["todo", "sort", "up"]).err(), Some("Invalid sort order. Use high-to-low or low-to-high."));
    assert_eq!(parse(&["todo", "sort"]).err(), Some("Usage: todo-cli sort <high-to-low|low-to-high>"));
}

#[test]
fn unknown_command() {
    assert_eq!(parse(&["todo", "frobnicate"]).err(), Some("Unknown command. Use 'help' to see available commands."));
}
