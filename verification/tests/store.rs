use htmx_lsp_core::store::DocumentStore;

#[test]
fn new_store_holds_nothing() {
    let store = DocumentStore::new();
    assert_eq!(store.get("file:///a.html"), None);
    assert_eq!(store.get(""), None);
}

#[test]
fn upsert_then_get_returns_the_text() {
    let mut store = DocumentStore::new();
    store.upsert("file:///a.html".to_string(), "<div>".to_string());
    assert_eq!(store.get("file:///a.html"), Some("<div>"));
}

#[test]
fn upsert_replaces_the_text_wholesale() {
    let mut store = DocumentStore::new();
    store.upsert("file:///a.html".to_string(), "a long first text".to_string());
    store.upsert("file:///a.html".to_string(), "b".to_string());
    assert_eq!(store.get("file:///a.html"), Some("b"));
}

#[test]
fn upsert_leaves_other_documents_alone() {
    let mut store = DocumentStore::new();
    store.upsert("file:///a.html".to_string(), "one".to_string());
    store.upsert("file:///b.html".to_string(), "two".to_string());
    store.upsert("file:///a.html".to_string(), "three".to_string());
    assert_eq!(store.get("file:///a.html"), Some("three"));
    assert_eq!(store.get("file:///b.html"), Some("two"));
    assert_eq!(store.get("file:///c.html"), None);
}

#[test]
fn uris_are_not_normalised() {
    let mut store = DocumentStore::new();
    store.upsert("file:///A.html".to_string(), "upper".to_string());
    assert_eq!(store.get("file:///a.html"), None);
    assert_eq!(store.get("file:///A.html/"), None);
    assert_eq!(store.get("file:///A.html"), Some("upper"));
}

#[test]
fn empty_text_is_a_text() {
    let mut store = DocumentStore::new();
    store.upsert("u".to_string(), String::new());
    assert_eq!(store.get("u"), Some(""));
}
