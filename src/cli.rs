use vstd::prelude::*;
use vstd::string::*;

use crate::todo::{lowercase, lower_of, Priority, SortOrder, TodoStatus};

verus! {

/// One request to the tool, read from the command line.
#[derive(Debug)]
pub enum Command {
    Add { name: String, priority: String, description: String },
    Delete { name: String },
    ListPriority { priority: Priority },
    ListStatus { status: TodoStatus },
    Sort { order: SortOrder },
    Done { name: String },
    List,
    Help,
}

/// The parsed command line.
#[derive(Debug)]
pub struct Config {
    pub command: Command,
}

/// What `str::trim` makes of a string.
pub uninterp spec fn trimmed(s: Seq<char>) -> Seq<char>;

/// Relies on `str::trim`: leading and trailing white space removed, by the characters alone.
#[verifier::external_body]
fn trim_text(s: &str) -> (r: String)
    ensures
        r@ == trimmed(s@),
{
    s.trim().to_string()
}

/// The words of `ws` joined with single spaces.
pub open spec fn joined(ws: Seq<String>) -> Seq<char>
    decreases ws.len(),
{
    if ws.len() == 0 {
        Seq::empty()
    } else if ws.len() == 1 {
        ws[0]@
    } else {
        joined(ws.drop_last()) + " "@ + ws.last()@
    }
}

/// The priority that a lower-case word names exactly, if any.
pub open spec fn priority_named(w: Seq<char>) -> Option<Priority> {
    if w == "high"@ {
        Some(Priority::High)
    } else if w == "medium"@ {
        Some(Priority::Medium)
    } else if w == "low"@ {
        Some(Priority::Low)
    } else {
        None
    }
}

/// The status that a lower-case word names exactly, if any.
pub open spec fn status_named(w: Seq<char>) -> Option<TodoStatus> {
    if w == "pending"@ {
        Some(TodoStatus::Pending)
    } else if w == "completed"@ {
        Some(TodoStatus::Completed)
    } else {
        None
    }
}

/// The sort order that a lower-case word names exactly, if any.
pub open spec fn order_named(w: Seq<char>) -> Option<SortOrder> {
    if w == "high-to-low"@ {
        Some(SortOrder::HighToLow)
    } else if w == "low-to-high"@ {
        Some(SortOrder::LowToHigh)
    } else {
        None
    }
}

/// Reads a lower-case priority word.
pub fn parse_priority(word: &str) -> (r: Option<Priority>)
    ensures
        r == priority_named(word@),
{
    let w = word.to_owned();
    if w == "high".to_owned() {
        Some(Priority::High)
    } else if w == "medium".to_owned() {
        Some(Priority::Medium)
    } else if w == "low".to_owned() {
        Some(Priority::Low)
    } else {
        None
    }
}

/// Reads a lower-case status word.
pub fn parse_status(word: &str) -> (r: Option<TodoStatus>)
    ensures
        r == status_named(word@),
{
    let w = word.to_owned();
    if w == "pending".to_owned() {
        Some(TodoStatus::Pending)
    } else if w == "completed".to_owned() {
        Some(TodoStatus::Completed)
    } else {
        None
    }
}

/// Reads a lower-case sort order word.
pub fn parse_order(word: &str) -> (r: Option<SortOrder>)
    ensures
        r == order_named(word@),
{
    let w = word.to_owned();
    if w == "high-to-low".to_owned() {
        Some(SortOrder::HighToLow)
    } else if w == "low-to-high".to_owned() {
        Some(SortOrder::LowToHigh)
    } else {
        None
    }
}

/// The words of `args` from position `from` on, joined with single spaces.
pub fn join_from(args: &Vec<String>, from: usize) -> (r: String)
    requires
        from < args@.len(),
    ensures
        r@ == joined(args@.skip(from as int)),
{
    let n: usize = args.len();
    let mut out = args[from].clone();
    let mut i: usize = from + 1;
    assert(args@.skip(from as int).take(1) == seq![args@[from as int]]);
    while i < n
        invariant
            n == args@.len(),
            from < i <= args@.len(),
            out@ == joined(args@.skip(from as int).take(i - from)),
        decreases args@.len() - i,
    {
        let ghost ws = args@.skip(from as int).take(i + 1 - from);
        assert(ws.drop_last() == args@.skip(from as int).take(i - from));
        assert(ws.last() == args@[i as int]);
        out.append(" ");
        out.append(args[i].as_str());
        i += 1;
    }
    assert(args@.skip(from as int).take(i - from) == args@.skip(from as int));
    out
}

/// The name that `delete` and `done` act on: the words from the third on,
/// joined with spaces and trimmed.
pub open spec fn name_argument(a: Seq<String>) -> Seq<char> {
    trimmed(joined(a.skip(2)))
}

/// The message with which a command line is refused, if it is.
pub open spec fn arg_error(a: Seq<String>) -> Option<Seq<char>> {
    if a.len() < 2 {
        Some("not enough arguments"@)
    } else {
        let act = a[1]@;
        if act == "help"@ || act == "list"@ {
            None
        } else if act == "add"@ {
            if a.len() < 5 {
                Some("Usage: todo-cli add <name> <priority> <description>"@)
            } else {
                None
            }
        } else if act == "delete"@ {
            if a.len() < 3 {
                Some("Usage: todo-cli delete <name>"@)
            } else {
                None
            }
        } else if act == "list-priority"@ {
            if a.len() < 3 {
                Some("Usage: todo-cli list-priority <high|medium|low>"@)
            } else if priority_named(lower_of(a[2]@)) is None {
                Some("Invalid priority. Use high, medium, or low."@)
            } else {
                None
            }
        } else if act == "list-status"@ {
            if a.len() < 3 {
                Some("Usage: todo-cli list-status <pending|completed>"@)
            } else if status_named(lower_of(a[2]@)) is None {
                Some("Invalid status. Use pending or completed."@)
            } else {
                None
            }
        } else if act == "sort"@ {
            if a.len() < 3 {
                Some("Usage: todo-cli sort <high-to-low|low-to-high>"@)
            } else if order_named(lower_of(a[2]@)) is None {
                Some("Invalid sort order. Use high-to-low or low-to-high."@)
            } else {
                None
            }
        } else if act == "done"@ {
            if a.len() < 3 {
                Some("Usage: todo-cli done <name>"@)
            } else {
                None
            }
        } else {
            Some("Unknown command. Use 'help' to see available commands."@)
        }
    }
}

/// `c` is the command that an accepted command line `a` asks for.
pub open spec fn command_of(c: Command, a: Seq<String>) -> bool {
    let act = a[1]@;
    if act == "help"@ {
        c is Help
    } else if act == "list"@ {
        c is List
    } else if act == "add"@ {
        c matches Command::Add { name, priority, description }
            && name@ == a[2]@ && priority@ == a[3]@ && description@ == a[4]@
    } else if act == "delete"@ {
        c matches Command::Delete { name } && name@ == name_argument(a)
    } else if act == "list-priority"@ {
        c == (Command::ListPriority { priority: priority_named(lower_of(a[2]@))->Some_0 })
    } else if act == "list-status"@ {
        c == (Command::ListStatus { status: status_named(lower_of(a[2]@))->Some_0 })
    } else if act == "sort"@ {
        c == (Command::Sort { order: order_named(lower_of(a[2]@))->Some_0 })
    } else {
        c matches Command::Done { name } && name@ == name_argument(a)
    }
}

impl Config {
    /// Reads a command line: the program name, an action and its arguments.
    pub fn new(args: Vec<String>) -> (r: Result<Config, &'static str>)
        ensures
            arg_error(args@) is None <==> r is Ok,
            r matches Ok(c) ==> command_of(c.command, args@),
            r matches Err(m) ==> arg_error(args@) == Some(m@),
    {
        if args.len() < 2 {
            return Err("not enough arguments");
        }
        let action = args[1].clone();
        let command = if action == "help".to_owned() {
            Command::Help
        } else if action == "list".to_owned() {
            Command::List
        } else if action == "add".to_owned() {
            if args.len() < 5 {
                return Err("Usage: todo-cli add <name> <priority> <description>");
            }
            Command::Add {
                name: args[2].clone(),
                priority: args[3].clone(),
                description: args[4].clone(),
            }
        } else if action == "delete".to_owned() {
            if args.len() < 3 {
                return Err("Usage: todo-cli delete <name>");
            }
            let joined = join_from(&args, 2);
            Command::Delete { name: trim_text(joined.as_str()) }
        } else if action == "list-priority".to_owned() {
            if args.len() < 3 {
                return Err("Usage: todo-cli list-priority <high|medium|low>");
            }
            let word = lowercase(args[2].as_str());
            match parse_priority(word.as_str()) {
                Some(priority) => Command::ListPriority { priority },
                None => return Err("Invalid priority. Use high, medium, or low."),
            }
        } else if action == "list-status".to_owned() {
            if args.len() < 3 {
                return Err("Usage: todo-cli list-status <pending|completed>");
            }
            let word = lowercase(args[2].as_str());
            match parse_status(word.as_str()) {
                Some(status) => Command::ListStatus { status },
                None => return Err("Invalid status. Use pending or completed."),
            }
        } else if action == "sort".to_owned() {
            if args.len() < 3 {
                return Err("Usage: todo-cli sort <high-to-low|low-to-high>");
            }
            let word = lowercase(args[2].as_str());
            match parse_order(word.as_str()) {
                Some(order) => Command::Sort { order },
                None => return Err("Invalid sort order. Use high-to-low or low-to-high."),
            }
        } else if action == "done".to_owned() {
            if args.len() < 3 {
                return Err("Usage: todo-cli done <name>");
            }
            let joined = join_from(&args, 2);
            Command::Done { name: trim_text(joined.as_str()) }
        } else {
            return Err("Unknown command. Use 'help' to see available commands.");
        };
        Ok(Config { command })
    }
}

} // verus!
