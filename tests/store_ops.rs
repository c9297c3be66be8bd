use todo_cli::{Priority, SortOrder, StoreError, Todo, TodoStatus, TodoStore};

fn names(store: &TodoStore) -> Vec<String> {
    store.todos().iter().map(|t| t.name.clone()).collect()
}

fn store_of(items: &[(&str, &str)]) -> TodoStore {
    let mut store = TodoStore::new();
    for (name, priority) in items {
        assert_eq!(store.create_todo(Todo::new(name, priority, "")), Ok(true));
    }
    store
}

#[test]
fn creates_are_listed_in_insertion_order() {
    let store = store_of(&[("c", "low"), ("a", "high"), ("b", "medium")]);
    let listed = store.list_todos().unwrap();
    let got: Vec<&str> = listed.iter().map(|t| t.name.as_str()).collect();
    assert_eq!(got, vec!["c", "a", "b"]);
}

#[test]
fn empty_store_lists_not_found() {
    let store = TodoStore::new();
    assert_eq!(store.list_todos().err(), Some(StoreError::NotFound));
    assert!(store.todos().is_empty());
}

#[test]
fn duplicate_create_fails_and_leaves_store() {
    let mut store = store_of(&[("a", "high"), ("b", "low")]);
    let r = store.create_todo(Todo::new("a", "low", "other"));
    assert_eq!(r, Err(StoreError::AlreadyExists));
    assert_eq!(names(&store), vec!["a", "b"]);
    assert_eq!(store.todos()[0].priority, Priority::High);
    assert_eq!(store.todos()[0].description.as_deref(), Some(""));
}

#[test]
fn names_are_case_sensitive() {
    let mut store = store_of(&[("Task", "high")]);
    assert_eq!(store.create_todo(Todo::new("task", "high", "")), Ok(true));
    assert_eq!(store.todos().len(), 2);
}

#[test]
fn delete_missing_fails_and_leaves_store() {
    let mut store = store_of(&[("a", "high"), ("b", "low")]);
    assert_eq!(store.delete_todo("zz".to_string()), Err(StoreError::NotFound));
    assert_eq!(names(&store), vec!["a", "b"]);
}

#[test]
fn delete_existing_removes_one() {
    let mut store = store_of(&[("a", "high"), ("b", "low"), ("c", "medium")]);
    assert_eq!(store.delete_todo("b".to_string()), Ok(true));
    assert_eq!(names(&store), vec!["a", "c"]);
    assert_eq!(store.get_todo_by_name("b").err(), Some(StoreError::NotFound));
}

#[test]
fn mark_done_twice_succeeds_both_times() {
    let mut store = store_of(&[("a", "high"), ("b", "low")]);
    assert_eq!(store.mark_as_done("b"), Ok(true));
    assert_eq!(store.get_todo_by_name("b").unwrap().status, TodoStatus::Completed);
    assert_eq!(store.mark_as_done("b"), Ok(true));
    assert_eq!(store.get_todo_by_name("b").unwrap().status, TodoStatus::Completed);
    assert_eq!(store.get_todo_by_name("a").unwrap().status, TodoStatus::Pending);
    assert_eq!(names(&store), vec!["a", "b"]);
}

#[test]
fn mark_done_missing_is_not_found() {
    let mut store = store_of(&[("a", "high")]);
    assert_eq!(store.mark_as_done("b"), Err(StoreError::NotFound));
    assert_eq!(store.get_todo_by_name("a").unwrap().status, TodoStatus::Pending);
}

#[test]
fn sort_high_to_low_is_stable() {
    let mut store = store_of(&[("a", "low"), ("b", "high"), ("c", "medium"), ("d", "high")]);
    store.get_todos_by_sorted_priority(SortOrder::HighToLow);
    assert_eq!(names(&store), vec!["b", "d", "c", "a"]);
    let prios: Vec<Priority> = store.todos().iter().map(|t| t.priority).collect();
    assert_eq!(prios, vec![Priority::High, Priority::High, Priority::Medium, Priority::Low]);
}

#[test]
fn sort_low_to_high_is_stable() {
    let mut store = store_of(&[("a", "low"), ("b", "high"), ("c", "medium"), ("d", "high"), ("e", "low")]);
    store.get_todos_by_sorted_priority(SortOrder::LowToHigh);
    assert_eq!(names(&store), vec!["a", "e", "c", "b", "d"]);
}

#[test]
fn filters_keep_stored_order() {
    let mut store = store_of(&[("a", "low"), ("b", "high"), ("c", "low")]);
    store.mark_as_done("c").unwrap();
    let low: Vec<&str> = store.get_todos_by_priority(Priority::Low).unwrap().iter().map(|t| t.name.as_str()).collect();
    assert_eq!(low, vec!["a", "c"]);
    assert_eq!(store.get_todos_by_priority(Priority::Medium).err(), Some(StoreError::NotFound));
    let pending: Vec<&str> = store.get_todos_by_status(TodoStatus::Pending).unwrap().iter().map(|t| t.name.as_str()).collect();
    assert_eq!(pending, vec!["a", "b"]);
    let done: Vec<&str> = store.get_todos_by_status(TodoStatus::Completed).unwrap().iter().map(|t| t.name.as_str()).collect();
    assert_eq!(done, vec!["c"]);
    assert_eq!(store.completed_count(), 1);
}

#[test]
fn status_filter_empty_is_not_found() {
    let store = store_of(&[("a", "low")]);
    assert_eq!(store.get_todos_by_status(TodoStatus::Completed).err(), Some(StoreError::NotFound));
}

#[test]
fn buy_milk_scenario() {
    let mut store = TodoStore::new();
    assert_eq!(store.create_todo(Todo::new("Buy milk", "high", "from store")), Ok(true));
    let listed = store.list_todos().unwrap();
    assert_eq!(listed.len(), 1);
    assert_eq!(listed[0].status, TodoStatus::Pending);
    assert_eq!(listed[0].priority, Priority::High);
    assert_eq!(store.mark_as_done("Buy milk"), Ok(true));
    assert_eq!(store.get_todo_by_name("Buy milk").unwrap().status, TodoStatus::Completed);
    assert_eq!(store.delete_todo("Buy milk".to_string()), Ok(true));
    assert_eq!(store.list_todos().err(), Some(StoreError::NotFound));
}

#[test]
fn from_todos_accepts_distinct_names() {
    let todos = vec![Todo::new("x", "low", "1"), Todo::new("y", "high", "2")];
    let store = TodoStore::from_todos(todos).unwrap();
    assert_eq!(names(&store), vec!["x", "y"]);
    assert_eq!(store.todos()[1].priority, Priority::High);
}

#[test]
fn from_todos_refuses_repeated_names() {
    let todos = vec![Todo::new("x", "low", "1"), Todo::new("y", "high", "2"), Todo::new("x", "high", "3")];
    assert_eq!(TodoStore::from_todos(todos).err(), Some(StoreError::AlreadyExists));
}
