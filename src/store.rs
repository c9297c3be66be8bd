use vstd::prelude::*;
use vstd::string::*;

use crate::todo::{Priority, SortOrder, Todo, TodoStatus};

verus! {

/// Why a store operation did not take place.
#[derive(Debug, Clone, Copy, PartialEq, Eq, Structural)]
pub enum StoreError {
    /// No task has the name asked for, or the selection is empty.
    NotFound,
    /// A task of that name is already stored.
    AlreadyExists,
}

/// No two tasks of `s` share a name.
pub open spec fn unique_names(s: Seq<Todo>) -> bool {
    forall|i: int, j: int| 0 <= i < s.len() && 0 <= j < s.len() && i != j ==> s[i].name@ != s[j].name@
}

/// Some task of `s` is named `n`.
pub open spec fn has_name(s: Seq<Todo>, n: Seq<char>) -> bool {
    exists|i: int| 0 <= i < s.len() && s[i].name@ == n
}

/// `i` is the first position of `s` that holds a task named `n`.
pub open spec fn is_first_named(s: Seq<Todo>, n: Seq<char>, i: int) -> bool {
    &&& 0 <= i < s.len()
    &&& s[i].name@ == n
    &&& forall|j: int| 0 <= j < i ==> s[j].name@ != n
}

/// The first position of `s` that holds a task named `n` (meaningful when there is one).
pub open spec fn first_named(s: Seq<Todo>, n: Seq<char>) -> int {
    choose|i: int| is_first_named(s, n, i)
}

/// The tasks of `s` with status `st`, in their order in `s`.
pub open spec fn with_status(s: Seq<Todo>, st: TodoStatus) -> Seq<Todo>
    decreases s.len(),
{
    if s.len() == 0 {
        s
    } else if s.last().status == st {
        with_status(s.drop_last(), st).push(s.last())
    } else {
        with_status(s.drop_last(), st)
    }
}

/// The tasks of `s` with priority `p`, in their order in `s`.
pub open spec fn with_priority(s: Seq<Todo>, p: Priority) -> Seq<Todo>
    decreases s.len(),
{
    if s.len() == 0 {
        s
    } else if s.last().priority == p {
        with_priority(s.drop_last(), p).push(s.last())
    } else {
        with_priority(s.drop_last(), p)
    }
}

/// `s` stably sorted by priority: the groups of equal priority keep their inner order.
pub open spec fn sorted_by_priority(s: Seq<Todo>, order: SortOrder) -> Seq<Todo> {
    match order {
        SortOrder::HighToLow => with_priority(s, Priority::High) + with_priority(s, Priority::Medium)
            + with_priority(s, Priority::Low),
        SortOrder::LowToHigh => with_priority(s, Priority::Low) + with_priority(s, Priority::Medium)
            + with_priority(s, Priority::High),
    }
}

/// The tasks after `t` is offered to a store holding `s`.
pub open spec fn after_create(s: Seq<Todo>, t: Todo) -> Seq<Todo> {
    if has_name(s, t.name@) {
        s
    } else {
        s.push(t)
    }
}

/// The tasks after a request to delete the task named `n`.
pub open spec fn after_delete(s: Seq<Todo>, n: Seq<char>) -> Seq<Todo> {
    if has_name(s, n) {
        s.remove(first_named(s, n))
    } else {
        s
    }
}

/// The tasks after a request to mark the task named `n` completed.
pub open spec fn after_mark_done(s: Seq<Todo>, n: Seq<char>) -> Seq<Todo> {
    if has_name(s, n) {
        let i = first_named(s, n);
        s.update(i, Todo { status: TodoStatus::Completed, ..s[i] })
    } else {
        s
    }
}

/// The tasks of a store that starts empty and is offered `ts` one by one.
pub open spec fn create_all(ts: Seq<Todo>) -> Seq<Todo>
    decreases ts.len(),
{
    if ts.len() == 0 {
        ts
    } else {
        after_create(create_all(ts.drop_last()), ts.last())
    }
}

/// Creating tasks of distinct names one after another into an empty store
/// stores exactly those tasks, in the order they were created.
pub proof fn lemma_creates_keep_order(ts: Seq<Todo>)
    requires
        unique_names(ts),
    ensures
        create_all(ts) == ts,
    decreases ts.len(),
{
    if ts.len() > 0 {
        let t0 = ts.drop_last();
        assert(unique_names(t0)) by {
            assert forall|i: int, j: int| 0 <= i < t0.len() && 0 <= j < t0.len() && i != j implies t0[i].name@
                != t0[j].name@ by {
                assert(t0[i] == ts[i] && t0[j] == ts[j]);
            }
        }
        lemma_creates_keep_order(t0);
        assert(!has_name(t0, ts.last().name@)) by {
            if has_name(t0, ts.last().name@) {
                let i = choose|i: int| 0 <= i < t0.len() && t0[i].name@ == ts.last().name@;
                assert(ts[i].name@ == ts[ts.len() - 1].name@);
            }
        }
        assert(t0.push(ts.last()) == ts);
    }
}

/// Marking a task done twice has the effect of marking it once: the task
/// is still found the second time, and it stays completed.
pub proof fn lemma_mark_done_twice(s: Seq<Todo>, n: Seq<char>)
    requires
        has_name(s, n),
    ensures
        has_name(after_mark_done(s, n), n),
        after_mark_done(after_mark_done(s, n), n) == after_mark_done(s, n),
        after_mark_done(s, n)[first_named(s, n)].status == TodoStatus::Completed,
        after_mark_done(s, n)[first_named(s, n)].name@ == n,
{
    let i = first_named(s, n);
    let once = after_mark_done(s, n);
    assert(is_first_named(s, n, i)) by {
        lemma_first_exists(s, n);
    }
    assert(is_first_named(once, n, i));
    lemma_first_named(once, n, i);
    assert(once.update(i, Todo { status: TodoStatus::Completed, ..once[i] }) == once);
}

/// Deleting a stored name removes exactly one task, and no task of that
/// name is left behind.
pub proof fn lemma_delete_removes_one(s: Seq<Todo>, n: Seq<char>)
    requires
        unique_names(s),
        has_name(s, n),
    ensures
        after_delete(s, n).len() == s.len() - 1,
        !has_name(after_delete(s, n), n),
{
    lemma_first_exists(s, n);
    let i = first_named(s, n);
    let r = after_delete(s, n);
    assert forall|k: int| 0 <= k < r.len() implies r[k].name@ != n by {
        if k < i {
            assert(r[k] == s[k]);
        } else {
            assert(r[k] == s[k + 1]);
        }
    }
}

/// Where some task is named `n`, a first one is.
pub proof fn lemma_first_exists(s: Seq<Todo>, n: Seq<char>)
    requires
        has_name(s, n),
    ensures
        is_first_named(s, n, first_named(s, n)),
    decreases s.len(),
{
    if s[0].name@ == n {
        assert(is_first_named(s, n, 0));
    } else {
        let t = s.drop_first();
        let k = choose|k: int| 0 <= k < s.len() && s[k].name@ == n;
        assert(t[k - 1].name@ == n);
        lemma_first_exists(t, n);
        let j = first_named(t, n);
        assert forall|m: int| 0 <= m < j + 1 implies s[m].name@ != n by {
            if m > 0 {
                assert(s[m] == t[m - 1]);
            }
        }
        assert(is_first_named(s, n, j + 1));
        lemma_first_named(s, n, j + 1);
    }
}

/// A task equal to `t` in every field.
fn duplicate(t: &Todo) -> (r: Todo)
    ensures
        r == *t,
{
    Todo {
        name: t.name.clone(),
        status: t.status,
        priority: t.priority,
        description: match &t.description {
            Some(d) => Some(d.clone()),
            None => None,
        },
    }
}

/// Appends to `out` the tasks of `src` with priority `p`, in their order.
fn append_with_priority(src: &Vec<Todo>, p: Priority, out: &mut Vec<Todo>)
    ensures
        final(out)@ == old(out)@ + with_priority(src@, p),
{
    let mut i: usize = 0;
    while i < src.len()
        invariant
            i <= src@.len(),
            out@ == old(out)@ + with_priority(src@.take(i as int), p),
        decreases src@.len() - i,
    {
        assert(src@.take(i + 1).drop_last() == src@.take(i as int));
        if src[i].priority == p {
            out.push(duplicate(&src[i]));
        }
        i += 1;
    }
    assert(src@.take(i as int) == src@);
}

/// A position that is first for `n` is the one that `first_named` picks.
proof fn lemma_first_named(s: Seq<Todo>, n: Seq<char>, i: int)
    requires
        is_first_named(s, n, i),
    ensures
        first_named(s, n) == i,
{
    let k = first_named(s, n);
    assert(is_first_named(s, n, k));
    if k < i {
        assert(s[k].name@ != n);
    } else if i < k {
        assert(s[i].name@ != n);
    }
}

/// Every task of `with_priority(s, p)` has priority `p` and stands somewhere in `s`;
/// with `s` free of repeated names, so is the selection.
proof fn lemma_with_priority(s: Seq<Todo>, p: Priority)
    ensures
        forall|k: int| 0 <= k < with_priority(s, p).len() ==> {
            &&& with_priority(s, p)[k].priority == p
            &&& exists|i: int| 0 <= i < s.len() && s[i] == #[trigger] with_priority(s, p)[k]
        },
        unique_names(s) ==> unique_names(with_priority(s, p)),
    decreases s.len(),
{
    if s.len() > 0 {
        let s0 = s.drop_last();
        lemma_with_priority(s0, p);
        let w0 = with_priority(s0, p);
        let w = with_priority(s, p);
        assert forall|k: int| 0 <= k < w.len() implies {
            &&& w[k].priority == p
            &&& exists|i: int| 0 <= i < s.len() && s[i] == #[trigger] w[k]
        } by {
            if k < w0.len() {
                let i = choose|i: int| 0 <= i < s0.len() && s0[i] == #[trigger] w0[k];
                assert(s[i] == w[k]);
            } else {
                assert(s[s.len() - 1] == w[k]);
            }
        }
        if unique_names(s) && s.last().priority == p {
            assert forall|a: int, b: int| 0 <= a < w.len() && 0 <= b < w.len() && a != b implies w[a].name@
                != w[b].name@ by {
                if a < w0.len() && b < w0.len() {
                } else if a < w0.len() {
                    let i = choose|i: int| 0 <= i < s0.len() && s0[i] == #[trigger] w0[a];
                    assert(s[i] == w[a]);
                    assert(w[b] == s[s.len() - 1]);
                } else {
                    let i = choose|i: int| 0 <= i < s0.len() && s0[i] == #[trigger] w0[b];
                    assert(s[i] == w[b]);
                    assert(w[a] == s[s.len() - 1]);
                }
            }
        }
    }
}

/// Sorting by priority keeps the names of a store free of repeats.
proof fn lemma_sorted_unique(s: Seq<Todo>, order: SortOrder)
    requires
        unique_names(s),
    ensures
        unique_names(sorted_by_priority(s, order)),
{
    let (p1, p2, p3) = match order {
        SortOrder::HighToLow => (Priority::High, Priority::Medium, Priority::Low),
        SortOrder::LowToHigh => (Priority::Low, Priority::Medium, Priority::High),
    };
    lemma_with_priority(s, p1);
    lemma_with_priority(s, p2);
    lemma_with_priority(s, p3);
    let g1 = with_priority(s, p1);
    let g2 = with_priority(s, p2);
    let g3 = with_priority(s, p3);
    let r = g1 + g2 + g3;
    assert(r == sorted_by_priority(s, order));
    assert forall|a: int, b: int| 0 <= a < r.len() && 0 <= b < r.len() && a != b implies r[a].name@
        != r[b].name@ by {
        let (ga, ka) = if a < g1.len() {
            (g1, a)
        } else if a < g1.len() + g2.len() {
            (g2, a - g1.len())
        } else {
            (g3, a - g1.len() - g2.len())
        };
        let (gb, kb) = if b < g1.len() {
            (g1, b)
        } else if b < g1.len() + g2.len() {
            (g2, b - g1.len())
        } else {
            (g3, b - g1.len() - g2.len())
        };
        assert(r[a] == ga[ka]);
        assert(r[b] == gb[kb]);
        if ga != gb && r[a].name@ == r[b].name@ {
            let i = choose|i: int| 0 <= i < s.len() && s[i] == #[trigger] ga[ka];
            let j = choose|j: int| 0 <= j < s.len() && s[j] == #[trigger] gb[kb];
            assert(s[i].priority != s[j].priority);
        }
    }
}

/// The tasks, in stored order.  No two of them share a name.
pub struct TodoStore {
    todos: Vec<Todo>,
}

impl View for TodoStore {
    type V = Seq<Todo>;

    closed spec fn view(&self) -> Seq<Todo> {
        self.todos@
    }
}

impl TodoStore {
    /// The store's invariant: names are unique keys.
    pub open spec fn wf(&self) -> bool {
        unique_names(self@)
    }

    /// An empty store.
    pub fn new() -> (r: TodoStore)
        ensures
            r@ == Seq::<Todo>::empty(),
            r.wf(),
    {
        TodoStore { todos: Vec::new() }
    }

    /// A store holding `todos` as given; `AlreadyExists` when two of them share a name.
    pub fn from_todos(todos: Vec<Todo>) -> (r: Result<TodoStore, StoreError>)
        ensures
            unique_names(todos@) <==> r is Ok,
            r matches Ok(st) ==> st@ == todos@ && st.wf(),
            r matches Err(e) ==> e == StoreError::AlreadyExists,
    {
        let mut store = TodoStore::new();
        let mut i: usize = 0;
        while i < todos.len()
            invariant
                i <= todos@.len(),
                store@ == todos@.take(i as int),
                store.wf(),
            decreases todos@.len() - i,
        {
            let t = duplicate(&todos[i]);
            let added = store.create_todo(t);
            if added.is_err() {
                proof {
                    let k = choose|k: int| 0 <= k < i && todos@.take(i as int)[k].name@ == todos@[i as int].name@;
                    assert(todos@[k].name@ == todos@[i as int].name@);
                }
                return Err(StoreError::AlreadyExists);
            }
            assert(todos@.take(i + 1) == todos@.take(i as int).push(todos@[i as int]));
            i += 1;
        }
        assert(todos@.take(i as int) == todos@);
        Ok(store)
    }

    /// All tasks in stored order, empty or not.
    pub fn todos(&self) -> (r: &Vec<Todo>)
        ensures
            r@ == self@,
    {
        &self.todos
    }

    /// All tasks in stored order; `NotFound` when there are none.
    pub fn list_todos(&self) -> (r: Result<&Vec<Todo>, StoreError>)
        ensures
            self@.len() == 0 <==> r is Err,
            r matches Err(e) ==> e == StoreError::NotFound,
            r matches Ok(v) ==> v@ == self@,
    {
        if self.todos.len() == 0 {
            Err(StoreError::NotFound)
        } else {
            Ok(&self.todos)
        }
    }

    /// The first task named `todo_name`; `NotFound` when there is none.
    pub fn get_todo_by_name(&self, todo_name: &str) -> (r: Result<&Todo, StoreError>)
        ensures
            !has_name(self@, todo_name@) <==> r is Err,
            r matches Err(e) ==> e == StoreError::NotFound,
            r matches Ok(t) ==> is_first_named(self@, todo_name@, first_named(self@, todo_name@))
                && *t == self@[first_named(self@, todo_name@)],
    {
        let n = todo_name.to_owned();
        let mut i: usize = 0;
        while i < self.todos.len()
            invariant
                i <= self.todos@.len(),
                n@ == todo_name@,
                forall|j: int| 0 <= j < i ==> self.todos@[j].name@ != todo_name@,
            decreases self.todos@.len() - i,
        {
            if self.todos[i].name == n {
                proof {
                    lemma_first_named(self@, todo_name@, i as int);
                }
                return Ok(&self.todos[i]);
            }
            i += 1;
        }
        Err(StoreError::NotFound)
    }

    /// The position of the first task named `n`, if any.
    fn position(&self, n: &String) -> (r: Option<usize>)
        ensures
            r is None <==> !has_name(self@, n@),
            r matches Some(i) ==> is_first_named(self@, n@, i as int) && i as int == first_named(self@, n@),
    {
        let mut i: usize = 0;
        while i < self.todos.len()
            invariant
                i <= self.todos@.len(),
                forall|j: int| 0 <= j < i ==> self.todos@[j].name@ != n@,
            decreases self.todos@.len() - i,
        {
            if self.todos[i].name == *n {
                proof {
                    lemma_first_named(self@, n@, i as int);
                }
                return Some(i);
            }
            i += 1;
        }
        None
    }

    /// Reorders the tasks by priority, keeping the order among equal priorities.
    pub fn get_todos_by_sorted_priority(&mut self, sort_ord: SortOrder)
        requires
            old(self).wf(),
        ensures
            final(self)@ == sorted_by_priority(old(self)@, sort_ord),
            final(self).wf(),
    {
        let (p1, p2, p3) = match sort_ord {
            SortOrder::HighToLow => (Priority::High, Priority::Medium, Priority::Low),
            SortOrder::LowToHigh => (Priority::Low, Priority::Medium, Priority::High),
        };
        let mut out: Vec<Todo> = Vec::new();
        append_with_priority(&self.todos, p1, &mut out);
        append_with_priority(&self.todos, p2, &mut out);
        append_with_priority(&self.todos, p3, &mut out);
        proof {
            lemma_sorted_unique(self@, sort_ord);
        }
        self.todos = out;
    }

    /// Adds `todo` at the end unless a task of its name is already stored.
    pub fn create_todo(&mut self, todo: Todo) -> (r: Result<bool, StoreError>)
        requires
            old(self).wf(),
        ensures
            final(self)@ == after_create(old(self)@, todo),
            r == if has_name(old(self)@, todo.name@) {
                Err::<bool, StoreError>(StoreError::AlreadyExists)
            } else {
                Ok::<bool, StoreError>(true)
            },
            final(self).wf(),
    {
        match self.get_todo_by_name(todo.name.as_str()) {
            Ok(_) => Err(StoreError::AlreadyExists),
            Err(_) => {
                proof {
                    let s = self@.push(todo);
                    assert forall|i: int, j: int| 0 <= i < s.len() && 0 <= j < s.len() && i != j implies s[i].name@
                        != s[j].name@ by {
                        if i == s.len() - 1 {
                            assert(self@[j].name@ != todo.name@);
                        } else if j == s.len() - 1 {
                            assert(self@[i].name@ != todo.name@);
                        }
                    }
                }
                self.todos.push(todo);
                Ok(true)
            },
        }
    }

    /// Removes the task named `todo_name`; `NotFound` when there is none.
    pub fn delete_todo(&mut self, todo_name: String) -> (r: Result<bool, StoreError>)
        requires
            old(self).wf(),
        ensures
            final(self)@ == after_delete(old(self)@, todo_name@),
            r == if has_name(old(self)@, todo_name@) {
                Ok::<bool, StoreError>(true)
            } else {
                Err::<bool, StoreError>(StoreError::NotFound)
            },
            final(self).wf(),
    {
        match self.position(&todo_name) {
            Some(i) => {
                proof {
                    let s = self@.remove(i as int);
                    assert forall|a: int, b: int| 0 <= a < s.len() && 0 <= b < s.len() && a != b implies s[a].name@
                        != s[b].name@ by {
                        let a0 = if a < i { a } else { a + 1 };
                        let b0 = if b < i { b } else { b + 1 };
                        assert(s[a] == self@[a0]);
                        assert(s[b] == self@[b0]);
                    }
                }
                self.todos.remove(i);
                Ok(true)
            },
            None => Err(StoreError::NotFound),
        }
    }

    /// Marks the task named `todo_name` completed, whatever its status was;
    /// `NotFound` when there is none.
    pub fn mark_as_done(&mut self, todo_name: &str) -> (r: Result<bool, StoreError>)
        requires
            old(self).wf(),
        ensures
            final(self)@ == after_mark_done(old(self)@, todo_name@),
            r == if has_name(old(self)@, todo_name@) {
                Ok::<bool, StoreError>(true)
            } else {
                Err::<bool, StoreError>(StoreError::NotFound)
            },
            final(self).wf(),
    {
        let n = todo_name.to_owned();
        match self.position(&n) {
            Some(i) => {
                let old_todo = &self.todos[i];
                let done = Todo {
                    name: old_todo.name.clone(),
                    status: TodoStatus::Completed,
                    priority: old_todo.priority,
                    description: match &old_todo.description {
                        Some(d) => Some(d.clone()),
                        None => None,
                    },
                };
                proof {
                    let s = self@.update(i as int, done);
                    assert forall|a: int, b: int| 0 <= a < s.len() && 0 <= b < s.len() && a != b implies s[a].name@
                        != s[b].name@ by {
                        assert(s[a].name@ == self@[a].name@);
                        assert(s[b].name@ == self@[b].name@);
                    }
                }
                self.todos.set(i, done);
                Ok(true)
            },
            None => Err(StoreError::NotFound),
        }
    }

    /// How many tasks are completed.
    pub fn completed_count(&self) -> (r: usize)
        ensures
            r == with_status(self@, TodoStatus::Completed).len(),
    {
        let mut c: usize = 0;
        let mut i: usize = 0;
        while i < self.todos.len()
            invariant
                i <= self.todos@.len(),
                c == with_status(self.todos@.take(i as int), TodoStatus::Completed).len(),
                c <= i,
            decreases self.todos@.len() - i,
        {
            assert(self.todos@.take(i + 1).drop_last() == self.todos@.take(i as int));
            if self.todos[i].status == TodoStatus::Completed {
                c += 1;
            }
            i += 1;
        }
        assert(self.todos@.take(i as int) == self@);
        c
    }

    /// The tasks with status `status`, in stored order; `NotFound` when there are none.
    pub fn get_todos_by_status(&self, status: TodoStatus) -> (r: Result<Vec<&Todo>, StoreError>)
        ensures
            with_status(self@, status).len() == 0 <==> r is Err,
            r matches Err(e) ==> e == StoreError::NotFound,
            r matches Ok(v) ==> v@.len() == with_status(self@, status).len()
                && forall|k: int| 0 <= k < v@.len() ==> *v@[k] == with_status(self@, status)[k],
    {
        let mut out: Vec<&Todo> = Vec::new();
        let mut i: usize = 0;
        while i < self.todos.len()
            invariant
                i <= self.todos@.len(),
                out@.len() == with_status(self.todos@.take(i as int), status).len(),
                forall|k: int| 0 <= k < out@.len() ==> *out@[k] == with_status(self.todos@.take(i as int), status)[k],
            decreases self.todos@.len() - i,
        {
            assert(self.todos@.take(i + 1).drop_last() == self.todos@.take(i as int));
            if self.todos[i].status == status {
                out.push(&self.todos[i]);
            }
            i += 1;
        }
        assert(self.todos@.take(i as int) == self@);
        if out.len() == 0 {
            Err(StoreError::NotFound)
        } else {
            Ok(out)
        }
    }

    /// The tasks with priority `priority`, in stored order; `NotFound` when there are none.
    pub fn get_todos_by_priority(&self, priority: Priority) -> (r: Result<Vec<&Todo>, StoreError>)
        ensures
            with_priority(self@, priority).len() == 0 <==> r is Err,
            r matches Err(e) ==> e == StoreError::NotFound,
            r matches Ok(v) ==> v@.len() == with_priority(self@, priority).len()
                && forall|k: int| 0 <= k < v@.len() ==> *v@[k] == with_priority(self@, priority)[k],
    {
        let mut out: Vec<&Todo> = Vec::new();
        let mut i: usize = 0;
        while i < self.todos.len()
            invariant
                i <= self.todos@.len(),
                out@.len() == with_priority(self.todos@.take(i as int), priority).len(),
                forall|k: int| 0 <= k < out@.len() ==> *out@[k] == with_priority(self.todos@.take(i as int), priority)[k],
            decreases self.todos@.len() - i,
        {
            assert(self.todos@.take(i + 1).drop_last() == self.todos@.take(i as int));
            if self.todos[i].priority == priority {
                out.push(&self.todos[i]);
            }
            i += 1;
        }
        assert(self.todos@.take(i as int) == self@);
        if out.len() == 0 {
            Err(StoreError::NotFound)
        } else {
            Ok(out)
        }
    }
}

} // verus!
