use tama::memory;
use tama::memory::{append, clear, delete, get, get_opt, Store};
use tama::rollback::{apply_undo, UndoRow};

#[test]
fn set_get_delete() {
    let mut s = Store::new();
    memory::set(&mut s, "k", "v");
    assert_eq!(get(&s, "k"), "v");
    memory::set(&mut s, "k", "w");
    assert_eq!(get_opt(&s, "k"), Some("w".to_string()));
    delete(&mut s, "k");
    assert_eq!(get_opt(&s, "k"), None);
    assert_eq!(get(&s, "k"), "[no value stored for key 'k']");
}

#[test]
fn clear_empties_store() {
    let mut s = Store::new();
    memory::set(&mut s, "a", "1");
    memory::set(&mut s, "b", "2");
    clear(&mut s);
    assert_eq!(get_opt(&s, "a"), None);
    assert_eq!(get_opt(&s, "b"), None);
}

#[test]
fn append_parses_json_items() {
    let mut s = Store::new();
    assert_eq!(append(&mut s, "l", "{\"a\":1}"), "[{\"a\":1}]");
    assert_eq!(append(&mut s, "l", "plain"), "[{\"a\":1},\"plain\"]");
    memory::set(&mut s, "bad", "not an array");
    assert_eq!(append(&mut s, "bad", "3"), "[3]");
}

#[test]
fn undo_restores_previous_values_newest_first() {
    let mut s = Store::new();
    memory::set(&mut s, "a", "orig");
    // Two sets in one span: a orig -> x -> y, and b (absent) -> z.
    let rows: Vec<UndoRow> = vec![
        ("tama_mem_set".to_string(), "b".to_string(), None),
        ("tama_mem_set".to_string(), "a".to_string(), Some("x".to_string())),
        ("tama_mem_set".to_string(), "a".to_string(), Some("orig".to_string())),
    ];
    memory::set(&mut s, "a", "x");
    memory::set(&mut s, "a", "y");
    memory::set(&mut s, "b", "z");
    apply_undo(&mut s, &rows);
    assert_eq!(get_opt(&s, "a"), Some("orig".to_string()));
    assert_eq!(get_opt(&s, "b"), None);
}

#[test]
fn undo_skips_other_tools() {
    let mut s = Store::new();
    memory::set(&mut s, "k", "v");
    apply_undo(&mut s, &vec![("tama_bash".to_string(), "k".to_string(), None)]);
    assert_eq!(get_opt(&s, "k"), Some("v".to_string()));
}
