use heinlein::{Document, RegistryError, StringMap};

fn s(x: &str) -> String {
    x.to_string()
}

#[test]
fn parse_and_render_document() {
    let doc = Document::from_json("{\"name\": \"movies\", \"data\": {\"poster\": \"/p\"}, \"n\": [1, 2]}").unwrap();
    assert_eq!(doc.field(&s("name")), Some(&s("\"movies\"")));
    assert_eq!(doc.field(&s("n")), Some(&s("[1,2]")));
    assert_eq!(doc.data_entry(&s("poster")), Some(&s("/p")));
    assert!(doc.has_data());
    let back = Document::from_json(&doc.to_json()).unwrap();
    assert_eq!(back.to_json(), doc.to_json());
}

#[test]
fn render_quotes_keys_and_values() {
    let mut doc = Document::new();
    doc.set_entry(s("a\"b"), s("C:\\x"));
    assert_eq!(doc.to_json(), "{\"data\":{\"a\\\"b\":\"C:\\\\x\"}}");
}

#[test]
fn render_empty_document() {
    assert_eq!(Document::new().to_json(), "{}");
    let mut doc = Document::new();
    doc.set_table(StringMap::new());
    assert_eq!(doc.to_json(), "{\"data\":{}}");
}

#[test]
fn malformed_documents() {
    assert_eq!(Document::from_json("not json").err(), Some(RegistryError::Malformed));
    assert_eq!(Document::from_json("[1]").err(), Some(RegistryError::Malformed));
    assert_eq!(Document::from_json("{\"data\": 3}").err(), Some(RegistryError::Malformed));
    assert_eq!(Document::from_json("{\"data\": {\"x\": 3}}").err(), Some(RegistryError::Malformed));
}

#[test]
fn document_without_data() {
    let doc = Document::from_json("{\"name\": \"x\"}").unwrap();
    assert!(!doc.has_data());
    assert_eq!(doc.datatypes(), Vec::<String>::new());
}

#[test]
fn from_members_routes_data() {
    let ms = vec![(s("k"), s("true")), (s("data"), s("{\"t\":\"/p\"}"))];
    let doc = Document::from_members(&ms).unwrap();
    assert_eq!(doc.field(&s("k")), Some(&s("true")));
    assert_eq!(doc.field(&s("data")), None);
    assert_eq!(doc.data_entry(&s("t")), Some(&s("/p")));
}

#[test]
fn string_map_operations() {
    let mut m = StringMap::new();
    assert!(m.is_empty());
    m.insert(s("a"), s("1"));
    m.insert(s("b"), s("2"));
    m.insert(s("a"), s("3"));
    assert_eq!(m.len(), 2);
    assert_eq!(m.get(&s("a")), Some(&s("3")));
    assert!(m.remove(&s("a")));
    assert!(!m.remove(&s("a")));
    assert!(!m.contains_key(&s("a")));
    assert_eq!(m.keys(), vec![s("b")]);
    let d = m.duplicate();
    assert_eq!(d.pair_at(0), (&s("b"), &s("2")));
}
