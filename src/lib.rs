//! A small todo tracker: a store of named tasks with a priority and a status,
//! queried, sorted and changed through checked operations.

pub mod cli;
pub mod store;
pub mod todo;

pub use store::{StoreError, TodoStore};
pub use todo::{priority_from_word, Priority, SortOrder, Todo, TodoStatus};
