//! What holds of the store's operations, whatever the store contains.

use vstd::prelude::*;
use crate::model::{
    created, deleted, edited, has_id, ids_unique, is_first_with_id, lemma_position, position,
    toggled,
};
use crate::todo::TodoView;

verus! {

/// At most one record of `todos` carries `id`.
pub open spec fn at_most_one_with_id(todos: Seq<TodoView>, id: Seq<char>) -> bool {
    forall|i: int, j: int|
        0 <= i < j < todos.len() && (#[trigger] todos[i]).id == id ==> (#[trigger] todos[j]).id
            != id
}

/// Toggling an identifier that some record carries flips the flag of the
/// first such record and changes nothing else.
pub proof fn lemma_toggle_flips(todos: Seq<TodoView>, id: Seq<char>)
    requires
        has_id(todos, id),
    ensures
        toggled(todos, id).len() == todos.len(),
        position(todos, id) matches Some(i)
            && toggled(todos, id)[i] == (TodoView { done: !todos[i].done, ..todos[i] })
            && (forall|j: int|
                0 <= j < todos.len() && j != i ==> #[trigger] toggled(todos, id)[j] == todos[j]),
{
    lemma_position(todos, id);
}

/// Toggling the same identifier twice gives back the store as it was.
pub proof fn lemma_toggle_twice(todos: Seq<TodoView>, id: Seq<char>)
    ensures
        toggled(toggled(todos, id), id) == todos,
{
    lemma_position(todos, id);
    if let Some(i) = position(todos, id) {
        // the identifiers stay where they are, so the second lookup ends at `i` too
        assert(is_first_with_id(toggled(todos, id), id, i));
    }
}

/// Editing an identifier that some record carries replaces the text of the
/// first such record by the new text, keeps its identifier and its flag, and
/// changes nothing else.
pub proof fn lemma_edit_overwrites(todos: Seq<TodoView>, id: Seq<char>, text: Seq<char>)
    requires
        has_id(todos, id),
    ensures
        edited(todos, id, text).len() == todos.len(),
        position(todos, id) matches Some(i)
            && edited(todos, id, text)[i] == (TodoView { id, text, done: todos[i].done })
            && (forall|j: int|
                0 <= j < todos.len() && j != i ==> #[trigger] edited(todos, id, text)[j]
                    == todos[j]),
{
    lemma_position(todos, id);
}

/// Deleting an identifier that some record carries leaves exactly one record
/// fewer: the first with that identifier is gone and the others keep their
/// order.
pub proof fn lemma_delete_shrinks(todos: Seq<TodoView>, id: Seq<char>)
    requires
        has_id(todos, id),
    ensures
        deleted(todos, id).len() == todos.len() - 1,
        position(todos, id) matches Some(i)
            && (forall|j: int| 0 <= j < i ==> #[trigger] deleted(todos, id)[j] == todos[j])
            && (forall|j: int|
                i <= j < todos.len() - 1 ==> #[trigger] deleted(todos, id)[j] == todos[j + 1]),
{
    lemma_position(todos, id);
}

/// Where at most one record carries an identifier, none does once it was
/// deleted.
pub proof fn lemma_delete_removes_id(todos: Seq<TodoView>, id: Seq<char>)
    requires
        at_most_one_with_id(todos, id),
    ensures
        !has_id(deleted(todos, id), id),
{
    lemma_position(todos, id);
}

/// Where two records carry an identifier, one still does after a deletion.
pub proof fn lemma_delete_leaves_duplicates(todos: Seq<TodoView>, id: Seq<char>)
    requires
        !at_most_one_with_id(todos, id),
    ensures
        has_id(deleted(todos, id), id),
{
    let (a, b) = choose|a: int, b: int|
        0 <= a < b < todos.len() && (#[trigger] todos[a]).id == id
            && (#[trigger] todos[b]).id == id;
    lemma_position(todos, id);
    // the first record with `id` is at `a` or before it, so `b` moves down by one
    assert(deleted(todos, id)[b - 1] == todos[b]);
}

/// An operation on an identifier that no record carries leaves the store as
/// it was.
pub proof fn lemma_miss_changes_nothing(todos: Seq<TodoView>, id: Seq<char>, text: Seq<char>)
    requires
        !has_id(todos, id),
    ensures
        toggled(todos, id) == todos,
        edited(todos, id, text) == todos,
        deleted(todos, id) == todos,
{
}

/// A record created under an identifier that no record carries yet keeps the
/// identifiers distinct.
pub proof fn lemma_create_keeps_ids_unique(todos: Seq<TodoView>, id: Seq<char>, text: Seq<char>)
    requires
        ids_unique(todos),
        !has_id(todos, id),
    ensures
        ids_unique(created(todos, id, text)),
        has_id(created(todos, id, text), id),
{
    assert(created(todos, id, text)[todos.len() as int].id == id);
}

/// Toggling, editing and deleting keep distinct identifiers distinct.
pub proof fn lemma_changes_keep_ids_unique(todos: Seq<TodoView>, id: Seq<char>, text: Seq<char>)
    requires
        ids_unique(todos),
    ensures
        ids_unique(toggled(todos, id)),
        ids_unique(edited(todos, id, text)),
        ids_unique(deleted(todos, id)),
{
    lemma_position(todos, id);
}

} // verus!
