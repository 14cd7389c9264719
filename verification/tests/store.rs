use std::collections::HashSet;

use todos::errors::ApiError;
use todos::store::TodoStore;
use todos::todo::Todo;

fn two_seeds() -> TodoStore {
    TodoStore::with_seed_ids("one".to_string(), "two".to_string())
}

fn todo(id: &str, text: &str, done: bool) -> Todo {
    Todo { id: id.to_string(), text: text.to_string(), done }
}

fn is_uuid_v4_text(id: &str) -> bool {
    let chars: Vec<char> = id.chars().collect();
    chars.len() == 36
        && chars.iter().enumerate().all(|(i, c)| match i {
            8 | 13 | 18 | 23 => *c == '-',
            _ => matches!(*c, '0'..='9' | 'a'..='f'),
        })
        && chars[14] == '4'
        && matches!(chars[19], '8' | '9' | 'a' | 'b')
}

#[test]
fn new_store_holds_the_two_seeds() {
    let store = TodoStore::new();
    let todos = store.list();
    assert_eq!(todos.len(), 2);
    assert_eq!(todos[0].text, "Learn React");
    assert!(!todos[0].done);
    assert_eq!(todos[1].text, "Learn Vim");
    assert!(todos[1].done);
    assert!(is_uuid_v4_text(&todos[0].id));
    assert!(is_uuid_v4_text(&todos[1].id));
    assert_ne!(todos[0].id, todos[1].id);
}

#[test]
fn with_seed_ids_uses_the_given_ids() {
    let store = two_seeds();
    assert_eq!(
        store.list(),
        vec![todo("one", "Learn React", false), todo("two", "Learn Vim", true)]
    );
}

#[test]
fn todo_new_is_not_done() {
    assert_eq!(Todo::new("id".to_string(), "text".to_string()), todo("id", "text", false));
}

#[test]
fn list_is_a_snapshot() {
    let mut store = two_seeds();
    let before = store.list();
    store.toggle("one").unwrap();
    assert_eq!(before, vec![todo("one", "Learn React", false), todo("two", "Learn Vim", true)]);
    assert_eq!(
        store.list(),
        vec![todo("one", "Learn React", true), todo("two", "Learn Vim", true)]
    );
}

#[test]
fn create_appends_at_the_end() {
    let mut store = two_seeds();
    let created = store.create("Learn Go".to_string());
    assert_eq!(created.text, "Learn Go");
    assert!(!created.done);
    let todos = store.list();
    assert_eq!(todos.len(), 3);
    assert_eq!(todos[0], todo("one", "Learn React", false));
    assert_eq!(todos[1], todo("two", "Learn Vim", true));
    assert_eq!(todos[2], created);
}

#[test]
fn create_gives_a_version_4_uuid() {
    let mut store = two_seeds();
    let created = store.create("x".to_string());
    assert!(is_uuid_v4_text(&created.id));
    let parsed = uuid::Uuid::parse_str(&created.id).unwrap();
    assert_eq!(parsed.get_version_num(), 4);
    assert_eq!(parsed.to_string(), created.id);
}

#[test]
fn create_accepts_an_empty_text() {
    let mut store = two_seeds();
    let created = store.create(String::new());
    assert_eq!(created.text, "");
    assert_eq!(store.list().len(), 3);
}

#[test]
fn create_with_id_appends_that_record() {
    let mut store = two_seeds();
    let created = store.create_with_id("three".to_string(), "Learn Go".to_string());
    assert_eq!(created, todo("three", "Learn Go", false));
    assert_eq!(
        store.list(),
        vec![
            todo("one", "Learn React", false),
            todo("two", "Learn Vim", true),
            todo("three", "Learn Go", false),
        ]
    );
}

#[test]
fn created_ids_are_pairwise_distinct() {
    let mut store = TodoStore::new();
    let mut seen: HashSet<String> = HashSet::new();
    for todo in store.list() {
        assert!(seen.insert(todo.id));
    }
    for i in 0..200 {
        let created = store.create(format!("task {}", i));
        assert!(seen.insert(created.id));
    }
    assert_eq!(store.list().len(), 202);
}

#[test]
fn toggle_once_flips_and_twice_restores() {
    let mut store = two_seeds();
    let before = store.list();

    assert_eq!(store.toggle("one"), Ok(()));
    assert_eq!(
        store.list(),
        vec![todo("one", "Learn React", true), todo("two", "Learn Vim", true)]
    );

    assert_eq!(store.toggle("one"), Ok(()));
    assert_eq!(store.list(), before);

    assert_eq!(store.toggle("two"), Ok(()));
    assert_eq!(
        store.list(),
        vec![todo("one", "Learn React", false), todo("two", "Learn Vim", false)]
    );
}

#[test]
fn edit_replaces_the_text_and_keeps_the_flag() {
    let mut store = two_seeds();
    let edited = store.edit("two", "Learn Emacs".to_string());
    assert_eq!(edited, Ok(todo("two", "Learn Emacs", true)));
    assert_eq!(
        store.list(),
        vec![todo("one", "Learn React", false), todo("two", "Learn Emacs", true)]
    );

    let edited = store.edit("one", String::new());
    assert_eq!(edited, Ok(todo("one", "", false)));
    assert_eq!(store.list(), vec![todo("one", "", false), todo("two", "Learn Emacs", true)]);
}

#[test]
fn delete_shrinks_by_one_and_removes_the_id() {
    let mut store = two_seeds();
    store.create_with_id("three".to_string(), "Learn Go".to_string());
    assert_eq!(store.delete("two"), Ok(()));
    let todos = store.list();
    assert_eq!(todos.len(), 2);
    assert!(todos.iter().all(|todo| todo.id != "two"));
    assert_eq!(todos, vec![todo("one", "Learn React", false), todo("three", "Learn Go", false)]);

    assert_eq!(store.delete("two"), Err(ApiError::TodoNotFound("two".to_string())));
    assert_eq!(store.list().len(), 2);
}

#[test]
fn delete_can_empty_the_store() {
    let mut store = two_seeds();
    assert_eq!(store.delete("one"), Ok(()));
    assert_eq!(store.delete("two"), Ok(()));
    assert!(store.list().is_empty());
    assert_eq!(store.toggle("one"), Err(ApiError::TodoNotFound("one".to_string())));
}

#[test]
fn a_miss_fails_and_changes_nothing() {
    let mut store = two_seeds();
    let before = store.list();
    let missing = ApiError::TodoNotFound("does-not-exist".to_string());

    assert_eq!(store.toggle("does-not-exist"), Err(missing));
    assert_eq!(store.list(), before);

    let missing = ApiError::TodoNotFound("does-not-exist".to_string());
    assert_eq!(store.edit("does-not-exist", "x".to_string()), Err(missing));
    assert_eq!(store.list(), before);

    let missing = ApiError::TodoNotFound("does-not-exist".to_string());
    assert_eq!(store.delete("does-not-exist"), Err(missing));
    assert_eq!(store.list(), before);
}

#[test]
fn ids_match_exactly() {
    let mut store = two_seeds();
    let before = store.list();
    for id in ["One", "on", "one ", "", "onetwo"] {
        assert_eq!(store.toggle(id), Err(ApiError::TodoNotFound(id.to_string())));
        assert_eq!(store.edit(id, "x".to_string()), Err(ApiError::TodoNotFound(id.to_string())));
        assert_eq!(store.delete(id), Err(ApiError::TodoNotFound(id.to_string())));
    }
    assert_eq!(store.list(), before);
}

#[test]
fn the_first_match_wins() {
    let mut store = two_seeds();
    store.create_with_id("one".to_string(), "again".to_string());

    assert_eq!(store.toggle("one"), Ok(()));
    assert_eq!(
        store.list(),
        vec![
            todo("one", "Learn React", true),
            todo("two", "Learn Vim", true),
            todo("one", "again", false),
        ]
    );

    assert_eq!(store.edit("one", "first".to_string()), Ok(todo("one", "first", true)));
    assert_eq!(
        store.list(),
        vec![todo("one", "first", true), todo("two", "Learn Vim", true), todo("one", "again", false)]
    );

    assert_eq!(store.delete("one"), Ok(()));
    assert_eq!(store.list(), vec![todo("two", "Learn Vim", true), todo("one", "again", false)]);

    assert_eq!(store.delete("one"), Ok(()));
    assert_eq!(store.list(), vec![todo("two", "Learn Vim", true)]);
}
