use vstd::prelude::*;
use vstd::string::*;

verus! {

/// Which end of the priority scale comes first when the store is sorted.
#[derive(Debug, Clone, Copy, PartialEq, Eq, Structural)]
pub enum SortOrder {
    HighToLow,
    LowToHigh,
}

/// Whether a task is still open.
#[derive(Debug, Clone, Copy, PartialEq, Eq, Structural)]
pub enum TodoStatus {
    Completed,
    Pending,
}

/// The urgency of a task, ranked `High < Medium < Low`.
#[derive(Debug, Clone, Copy, PartialEq, Eq, PartialOrd, Ord, Hash, Structural)]
pub enum Priority {
    High,
    Medium,
    Low,
}

/// A named task.  Its name is the key by which a store finds it.
#[derive(Debug)]
pub struct Todo {
    pub name: String,
    pub status: TodoStatus,
    pub priority: Priority,
    pub description: Option<String>,
}

/// Position of a priority on the scale: `High` is 0, `Low` is 2.
pub open spec fn rank(p: Priority) -> int {
    match p {
        Priority::High => 0,
        Priority::Medium => 1,
        Priority::Low => 2,
    }
}

/// The priority that a lower-case word names; any other word means `Low`.
pub open spec fn priority_of_word(w: Seq<char>) -> Priority {
    if w == "high"@ {
        Priority::High
    } else if w == "medium"@ {
        Priority::Medium
    } else {
        Priority::Low
    }
}

/// What `str::to_lowercase` makes of a string.
pub uninterp spec fn lower_of(s: Seq<char>) -> Seq<char>;

/// Relies on `str::to_lowercase`: the lower-case form depends on the characters alone.
#[verifier::external_body]
pub(crate) fn lowercase(s: &str) -> (r: String)
    ensures
        r@ == lower_of(s@),
{
    s.to_lowercase()
}

/// Reads an already lower-cased priority word; an unknown word gives `Low`.
pub fn priority_from_word(word: &str) -> (r: Priority)
    ensures
        r == priority_of_word(word@),
{
    let w = word.to_owned();
    if w == "high".to_owned() {
        Priority::High
    } else if w == "medium".to_owned() {
        Priority::Medium
    } else {
        Priority::Low
    }
}

/// `n` spaces.
pub open spec fn spaces(n: nat) -> Seq<char> {
    Seq::new(n, |i: int| ' ')
}

/// `s` fitted to `w` characters: cut to `w - 3` characters and `...` when
/// longer, padded with spaces when shorter.
pub open spec fn column(s: Seq<char>, w: nat) -> Seq<char> {
    if s.len() > w {
        s.take(w - 3) + "..."@
    } else {
        s + spaces((w - s.len()) as nat)
    }
}

/// The text shown for a status.
pub open spec fn status_label(st: TodoStatus) -> Seq<char> {
    match st {
        TodoStatus::Completed => "✓ Completed"@,
        TodoStatus::Pending => "◯ Pending"@,
    }
}

/// The text shown for a priority.
pub open spec fn priority_label(p: Priority) -> Seq<char> {
    match p {
        Priority::High => "🔴 HIGH"@,
        Priority::Medium => "🟡 MEDIUM"@,
        Priority::Low => "🟢 LOW"@,
    }
}

/// The description shown for a task: its own, or a placeholder.
pub open spec fn description_shown(d: Option<String>) -> Seq<char> {
    match d {
        Some(t) => t@,
        None => "No description"@,
    }
}

/// One table row for a task.
pub open spec fn row_of(t: Todo) -> Seq<char> {
    "│ "@ + column(t.name@, 25) + " │ "@ + column(status_label(t.status), 12) + " │ "@
        + column(priority_label(t.priority), 12) + " │ "@ + column(description_shown(t.description), 40)
        + " │"@
}

impl TodoStatus {
    /// The text shown for this status.
    pub fn label(&self) -> (r: String)
        ensures
            r@ == status_label(*self),
    {
        match self {
            TodoStatus::Completed => "✓ Completed".to_owned(),
            TodoStatus::Pending => "◯ Pending".to_owned(),
        }
    }
}

impl Priority {
    /// The text shown for this priority.
    pub fn label(&self) -> (r: String)
        ensures
            r@ == priority_label(*self),
    {
        match self {
            Priority::High => "🔴 HIGH".to_owned(),
            Priority::Medium => "🟡 MEDIUM".to_owned(),
            Priority::Low => "🟢 LOW".to_owned(),
        }
    }
}

impl Todo {

    /// `text` fitted to `width` characters, as in a table column.
    pub fn format_column(&self, text: &str, width: usize) -> (r: String)
        requires
            width >= 3,
        ensures
            r@ == column(text@, width as nat),
    {
        let len = text.unicode_len();
        if len > width {
            let mut out = text.substring_char(0, width - 3).to_owned();
            out.append("...");
            out
        } else {
            let mut out = text.to_owned();
            let mut k: usize = len;
            while k < width
                invariant
                    len == text@.len(),
                    len <= k <= width,
                    out@ == text@ + spaces((k - len) as nat),
                decreases width - k,
            {
                out.append(" ");
                proof {
                    reveal_strlit(" ");
                    assert(spaces((k + 1 - len) as nat) =~= spaces((k - len) as nat) + " "@);
                }
                k += 1;
            }
            out
        }
    }

    /// The table row that shows `self`.
    pub fn row(&self) -> (r: String)
        ensures
            r@ == row_of(*self),
    {
        let desc: String = match &self.description {
            Some(d) => d.clone(),
            None => "No description".to_owned(),
        };
        let mut out = "│ ".to_owned();
        out.append(self.format_column(self.name.as_str(), 25).as_str());
        out.append(" │ ");
        out.append(self.format_column(self.status.label().as_str(), 12).as_str());
        out.append(" │ ");
        out.append(self.format_column(self.priority.label().as_str(), 12).as_str());
        out.append(" │ ");
        out.append(self.format_column(desc.as_str(), 40).as_str());
        out.append(" │");
        out
    }

    /// A pending task; the priority word is read without regard to case.
    pub fn new(name: &str, priority: &str, description: &str) -> (r: Todo)
        ensures
            r.name@ == name@,
            r.status == TodoStatus::Pending,
            r.priority == priority_of_word(lower_of(priority@)),
            r.description matches Some(d) && d@ == description@,
    {
        let lowered = lowercase(priority);
        Todo {
            name: name.to_owned(),
            status: TodoStatus::Pending,
            priority: priority_from_word(lowered.as_str()),
            description: Some(description.to_owned()),
        }
    }
}

} // verus!
