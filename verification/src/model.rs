//! The store as a sequence of records, and what each operation makes of it.

use vstd::prelude::*;
use crate::todo::TodoView;

verus! {

/// Some record of `todos` carries `id`.
pub open spec fn has_id(todos: Seq<TodoView>, id: Seq<char>) -> bool {
    exists|i: int| 0 <= i < todos.len() && (#[trigger] todos[i]).id == id
}

/// `i` is the position of the first record of `todos` that carries `id`.
pub open spec fn is_first_with_id(todos: Seq<TodoView>, id: Seq<char>, i: int) -> bool {
    &&& 0 <= i < todos.len()
    &&& todos[i].id == id
    &&& forall|j: int| 0 <= j < i ==> (#[trigger] todos[j]).id != id
}

/// The position of the first record that carries `id`, if there is one.
pub open spec fn position(todos: Seq<TodoView>, id: Seq<char>) -> Option<int> {
    if has_id(todos, id) {
        Some(choose|i: int| is_first_with_id(todos, id, i))
    } else {
        None
    }
}

/// No two records share an identifier.
pub open spec fn ids_unique(todos: Seq<TodoView>) -> bool {
    forall|i: int, j: int|
        0 <= i < j < todos.len() ==> (#[trigger] todos[i]).id != (#[trigger] todos[j]).id
}

/// The two records a new store starts with.
pub open spec fn seeded(first_id: Seq<char>, second_id: Seq<char>) -> Seq<TodoView> {
    seq![
        TodoView { id: first_id, text: "Learn React"@, done: false },
        TodoView { id: second_id, text: "Learn Vim"@, done: true },
    ]
}

/// The store after a record with `id` and `text` was appended.
pub open spec fn created(todos: Seq<TodoView>, id: Seq<char>, text: Seq<char>) -> Seq<TodoView> {
    todos.push(TodoView { id, text, done: false })
}

/// The store after the completion flag of the first record with `id` was
/// flipped; the store itself where no record carries `id`.
pub open spec fn toggled(todos: Seq<TodoView>, id: Seq<char>) -> Seq<TodoView> {
    match position(todos, id) {
        Some(i) => todos.update(i, TodoView { done: !todos[i].done, ..todos[i] }),
        None => todos,
    }
}

/// The store after the text of the first record with `id` was replaced by
/// `text`; the store itself where no record carries `id`.
pub open spec fn edited(todos: Seq<TodoView>, id: Seq<char>, text: Seq<char>) -> Seq<TodoView> {
    match position(todos, id) {
        Some(i) => todos.update(i, TodoView { text, ..todos[i] }),
        None => todos,
    }
}

/// The store after the first record with `id` was taken out; the store itself
/// where no record carries `id`.
pub open spec fn deleted(todos: Seq<TodoView>, id: Seq<char>) -> Seq<TodoView> {
    match position(todos, id) {
        Some(i) => todos.remove(i),
        None => todos,
    }
}

/// Below a record that carries `id` there is a first one.
proof fn lemma_first_exists(todos: Seq<TodoView>, id: Seq<char>, k: int)
    requires
        0 <= k < todos.len(),
        todos[k].id == id,
    ensures
        exists|i: int| is_first_with_id(todos, id, i),
    decreases k,
{
    if forall|j: int| 0 <= j < k ==> (#[trigger] todos[j]).id != id {
        assert(is_first_with_id(todos, id, k));
    } else {
        let j = choose|j: int| 0 <= j < k && (#[trigger] todos[j]).id == id;
        lemma_first_exists(todos, id, j);
    }
}

/// `position` finds the first record with `id`, and finds none only where
/// there is none.
pub proof fn lemma_position(todos: Seq<TodoView>, id: Seq<char>)
    ensures
        match position(todos, id) {
            Some(i) => is_first_with_id(todos, id, i) && has_id(todos, id),
            None => !has_id(todos, id)
                && (forall|j: int| 0 <= j < todos.len() ==> (#[trigger] todos[j]).id != id),
        },
{
    if has_id(todos, id) {
        let k = choose|k: int| 0 <= k < todos.len() && (#[trigger] todos[k]).id == id;
        lemma_first_exists(todos, id, k);
    }
}

/// A first record with `id` is the one that `position` names.
pub proof fn lemma_position_is(todos: Seq<TodoView>, id: Seq<char>, i: int)
    requires
        is_first_with_id(todos, id, i),
    ensures
        position(todos, id) == Some(i),
{
}

} // verus!
