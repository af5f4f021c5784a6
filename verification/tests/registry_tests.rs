use soundtouch_hub::registry::Registry;

#[test]
fn fresh_registry_is_empty() {
    let r = Registry::new();
    assert!(r.is_empty());
    assert_eq!(r.get(), "");
}

#[test]
fn get_after_set_returns_exactly_what_was_set() {
    let mut r = Registry::new();
    r.set(String::from("speaker.local."));
    assert_eq!(r.get(), "speaker.local.");
    assert!(!r.is_empty());
}

#[test]
fn set_overwrites_unconditionally() {
    let mut r = Registry::new();
    r.set(String::from("first.local."));
    r.set(String::from("second.local."));
    assert_eq!(r.get(), "second.local.");
}

#[test]
fn get_after_set_of_empty_string_returns_empty() {
    let mut r = Registry::new();
    r.set(String::from("something.local."));
    r.set(String::new());
    assert_eq!(r.get(), "");
    assert!(r.is_empty());
}
