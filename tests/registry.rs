use heinlein::{create_answer, ds_exists, Document, ErrorKind, Registry, RegistryError, StringMap, TemplateStore};

fn s(x: &str) -> String {
    x.to_string()
}

fn store_with(entries: &[(&str, &str)]) -> TemplateStore {
    let mut m = StringMap::new();
    for (k, v) in entries {
        m.insert(s(k), s(v));
    }
    TemplateStore::new(m)
}

fn registry_with(name: &str) -> Registry {
    let mut reg = Registry::new();
    let store = store_with(&[("default", "{}")]);
    assert_eq!(reg.create_dataset(s(name), &store), Ok(true));
    reg
}

#[test]
fn create_twice_is_a_read() {
    let store = store_with(&[("default", "{\"version\":1}")]);
    let mut reg = Registry::new();
    assert_eq!(reg.create_dataset(s("movies"), &store), Ok(true));
    let first = reg.load_config(&s("movies")).unwrap().to_json();
    assert_eq!(reg.create_dataset(s("movies"), &store), Ok(false));
    let second = reg.load_config(&s("movies")).unwrap().to_json();
    assert_eq!(first, second);
    assert_eq!(first, "{\"version\":1,\"name\":\"movies\"}");
}

#[test]
fn named_template_is_used_verbatim() {
    let store = store_with(&[
        ("default", "{}"),
        ("survey", "{\"name\":\"Survey\",\"data\":{\"map\":\"/m\"}}"),
    ]);
    let mut reg = Registry::new();
    assert_eq!(reg.create_dataset(s("survey"), &store), Ok(true));
    assert_eq!(reg.get(&s("survey"), &s("map")), Ok(s("/m")));
    let text = reg.load_config(&s("survey")).unwrap().to_json();
    assert_eq!(text, "{\"name\":\"Survey\",\"data\":{\"map\":\"/m\"}}");
}

#[test]
fn missing_default_template() {
    let store = store_with(&[]);
    let mut reg = Registry::new();
    assert_eq!(reg.create_dataset(s("x"), &store), Err(RegistryError::NoDefaultTemplate));
    assert!(!ds_exists(&reg, &s("x")));
}

#[test]
fn malformed_template() {
    let store = store_with(&[("default", "[1, 2]")]);
    let mut reg = Registry::new();
    assert_eq!(reg.create_dataset(s("x"), &store), Err(RegistryError::Malformed));
}

#[test]
fn add_then_get_round_trip() {
    let mut reg = registry_with("movies");
    let r = reg.add(&s("movies"), s("poster"), Some(s("/tmp/p.png")), false);
    assert_eq!(r.unwrap(), (s("movies"), s("poster")));
    assert_eq!(reg.get(&s("movies"), &s("poster")), Ok(s("/tmp/p.png")));
}

#[test]
fn add_conflict_without_overwrite() {
    let mut reg = registry_with("movies");
    reg.add(&s("movies"), s("poster"), Some(s("/a")), false).unwrap();
    let r = reg.add(&s("movies"), s("poster"), Some(s("/b")), false);
    assert_eq!(r, Err(RegistryError::AlreadyExists));
    assert_eq!(RegistryError::AlreadyExists.kind(), ErrorKind::AlreadyExists);
    assert_eq!(reg.get(&s("movies"), &s("poster")), Ok(s("/a")));
    reg.add(&s("movies"), s("poster"), Some(s("/b")), true).unwrap();
    assert_eq!(reg.get(&s("movies"), &s("poster")), Ok(s("/b")));
}

#[test]
fn conflict_comes_before_path_check() {
    let mut reg = registry_with("movies");
    reg.add(&s("movies"), s("poster"), Some(s("/a")), false).unwrap();
    assert_eq!(reg.add(&s("movies"), s("poster"), None, false), Err(RegistryError::AlreadyExists));
    assert_eq!(reg.add(&s("movies"), s("poster"), None, true), Err(RegistryError::PathNotFound));
    assert_eq!(RegistryError::PathNotFound.kind(), ErrorKind::NotFound);
}

#[test]
fn add_to_missing_dataset() {
    let mut reg = Registry::new();
    let r = reg.add(&s("nope"), s("poster"), Some(s("/a")), false);
    assert_eq!(r, Err(RegistryError::DatasetNotFound));
    assert_eq!(RegistryError::DatasetNotFound.kind(), ErrorKind::NotFound);
}

#[test]
fn add_remove_get_is_not_found() {
    let mut reg = registry_with("movies");
    reg.add(&s("movies"), s("poster"), Some(s("/a")), false).unwrap();
    assert_eq!(reg.remove(&s("movies"), &s("poster")), Ok((s("movies"), s("poster"))));
    let r = reg.get(&s("movies"), &s("poster"));
    assert_eq!(r, Err(RegistryError::DatatypeNotFound));
    assert_eq!(r.unwrap_err().kind(), ErrorKind::NotFound);
}

#[test]
fn get_errors() {
    let mut reg = registry_with("movies");
    assert_eq!(reg.get(&s("books"), &s("poster")), Err(RegistryError::DatasetNotFound));
    assert_eq!(reg.get(&s("movies"), &s("poster")), Err(RegistryError::NoData));
    reg.add(&s("movies"), s("trailer"), Some(s("/t")), false).unwrap();
    assert_eq!(reg.get(&s("movies"), &s("poster")), Err(RegistryError::DatatypeNotFound));
}

#[test]
fn remove_errors() {
    let mut reg = registry_with("movies");
    assert_eq!(reg.remove(&s("books"), &s("poster")), Err(RegistryError::DatasetNotFound));
    assert_eq!(reg.remove(&s("movies"), &s("poster")), Err(RegistryError::NoData));
    reg.add(&s("movies"), s("trailer"), Some(s("/t")), false).unwrap();
    assert_eq!(reg.remove(&s("movies"), &s("poster")), Err(RegistryError::DatatypeNotFound));
    assert_eq!(reg.get(&s("movies"), &s("trailer")), Ok(s("/t")));
}

#[test]
fn list_datatypes_empty_is_not_found() {
    let mut reg = registry_with("movies");
    assert_eq!(reg.list_datatypes(&s("movies")), Err(RegistryError::NoData));
    reg.add(&s("movies"), s("poster"), Some(s("/a")), false).unwrap();
    reg.remove(&s("movies"), &s("poster")).unwrap();
    assert_eq!(reg.list(Some(&s("movies"))), Err(RegistryError::NoData));
    assert_eq!(RegistryError::NoData.kind(), ErrorKind::NotFound);
    assert_eq!(reg.list(Some(&s("books"))), Err(RegistryError::DatasetNotFound));
}

#[test]
fn list_datatypes_gives_each_key() {
    let mut reg = registry_with("movies");
    reg.add(&s("movies"), s("poster"), Some(s("/a")), false).unwrap();
    reg.add(&s("movies"), s("trailer"), Some(s("/b")), false).unwrap();
    reg.add(&s("movies"), s("poster"), Some(s("/c")), true).unwrap();
    let mut types = reg.list(Some(&s("movies"))).unwrap();
    types.sort();
    assert_eq!(types, vec![s("poster"), s("trailer")]);
}

#[test]
fn scenario_add_creates_dataset() {
    let store = store_with(&[("default", "{}")]);
    let mut reg = Registry::new();
    assert!(!ds_exists(&reg, &s("movies")));
    assert_eq!(create_answer('y'), Some(true));
    assert_eq!(reg.create_dataset(s("movies"), &store), Ok(true));
    reg.add(&s("movies"), s("poster"), Some(s("/tmp/p.png")), false).unwrap();
    assert!(ds_exists(&reg, &s("movies")));
    let text = reg.load_config(&s("movies")).unwrap().to_json();
    assert_eq!(text, "{\"name\":\"movies\",\"data\":{\"poster\":\"/tmp/p.png\"}}");
}

#[test]
fn scenario_list_with_no_datasets() {
    let reg = Registry::new();
    assert_eq!(reg.list(None), Ok(Vec::<String>::new()));
    assert_eq!(reg.list_ds(), Vec::<String>::new());
}

#[test]
fn list_all_datasets() {
    let store = store_with(&[("default", "{}")]);
    let mut reg = Registry::new();
    reg.create_dataset(s("b"), &store).unwrap();
    reg.create_dataset(s("a"), &store).unwrap();
    let mut names = reg.list(None).unwrap();
    names.sort();
    assert_eq!(names, vec![s("a"), s("b")]);
}

#[test]
fn answers_to_the_prompt() {
    assert_eq!(create_answer('Y'), Some(true));
    assert_eq!(create_answer('n'), Some(false));
    assert_eq!(create_answer('N'), Some(false));
    assert_eq!(create_answer('x'), None);
}

#[test]
fn add_or_create_declined() {
    let store = store_with(&[("default", "{}")]);
    let mut reg = Registry::new();
    let r = reg.add_or_create(&s("movies"), s("poster"), Some(s("/p")), false, false, &store);
    assert_eq!(r, Err(RegistryError::DatasetNotFound));
    assert!(!ds_exists(&reg, &s("movies")));
}

#[test]
fn add_or_create_confirmed() {
    let store = store_with(&[("default", "{}")]);
    let mut reg = Registry::new();
    let r = reg.add_or_create(&s("movies"), s("poster"), Some(s("/tmp/p.png")), false, true, &store);
    assert_eq!(r, Ok((s("movies"), s("poster"))));
    let text = reg.load_config(&s("movies")).unwrap().to_json();
    assert_eq!(text, "{\"name\":\"movies\",\"data\":{\"poster\":\"/tmp/p.png\"}}");
}

#[test]
fn add_or_create_keeps_dataset_when_path_is_missing() {
    let store = store_with(&[("default", "{}")]);
    let mut reg = Registry::new();
    let r = reg.add_or_create(&s("movies"), s("poster"), None, false, true, &store);
    assert_eq!(r, Err(RegistryError::PathNotFound));
    assert!(ds_exists(&reg, &s("movies")));
    assert_eq!(reg.get(&s("movies"), &s("poster")), Err(RegistryError::NoData));
}

#[test]
fn add_or_create_on_existing_dataset() {
    let store = store_with(&[]);
    let mut reg = registry_with("movies");
    let r = reg.add_or_create(&s("movies"), s("poster"), Some(s("/p")), false, false, &store);
    assert_eq!(r, Ok((s("movies"), s("poster"))));
    assert_eq!(reg.get(&s("movies"), &s("poster")), Ok(s("/p")));
}
