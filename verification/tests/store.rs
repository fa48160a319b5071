use resource_loader::failure::FailureKind;
use resource_loader::store::Store;

#[test]
fn load_or_create_absent_creates_empty() {
    let mut s = Store::new();
    let name = "notes.txt".to_string();
    let r = s.load_or_create(&name);
    assert_eq!(r.unwrap(), "".to_string());
    // The resource exists afterward: a strict load now succeeds.
    let after = s.load_strict(&name);
    assert_eq!(after.unwrap(), "".to_string());
}

#[test]
fn existing_content_round_trips() {
    let mut s = Store::new();
    let name = "greeting.txt".to_string();
    s.put(name.clone(), "hello world".to_string());
    let strict = s.load_strict(&name);
    assert_eq!(strict.unwrap(), "hello world".to_string());
    let recovered = s.load_or_create(&name);
    assert_eq!(recovered.unwrap(), "hello world".to_string());
}

#[test]
fn load_strict_absent_is_not_found_and_creates_nothing() {
    let mut s = Store::new();
    let name = "missing.txt".to_string();
    let first = s.load_strict(&name);
    assert_eq!(first.unwrap_err().kind(), FailureKind::NotFound);
    // Still absent: a second strict load fails the same way.
    let second = s.load_strict(&name);
    assert_eq!(second.unwrap_err().kind(), FailureKind::NotFound);
    // And creating it afterward still starts from empty.
    let created = s.load_or_create(&name);
    assert_eq!(created.unwrap(), "".to_string());
}

#[test]
fn denied_read_fails_with_diagnostic() {
    let mut s = Store::new();
    let name = "secret.txt".to_string();
    s.put(name.clone(), "classified".to_string());
    s.deny_read(name.clone());
    let strict = s.load_strict(&name);
    let f = strict.unwrap_err();
    assert_eq!(f.kind(), FailureKind::ReadFailed);
    assert!(!f.diagnostic().is_empty());
    let recovered = s.load_or_create(&name);
    let g = recovered.unwrap_err();
    assert_eq!(g.kind(), FailureKind::ReadFailed);
    assert!(!g.diagnostic().is_empty());
}

#[test]
fn denied_create_fails_and_leaves_resource_absent() {
    let mut s = Store::new();
    let name = "readonly.txt".to_string();
    s.deny_create(name.clone());
    let r = s.load_or_create(&name);
    let f = r.unwrap_err();
    assert_eq!(f.kind(), FailureKind::CreateFailed);
    assert!(!f.diagnostic().is_empty());
    // The resource remains absent.
    let strict = s.load_strict(&name);
    assert_eq!(strict.unwrap_err().kind(), FailureKind::NotFound);
}

#[test]
fn denied_open_is_classified_as_other() {
    let mut s = Store::new();
    let name = "locked.txt".to_string();
    s.put(name.clone(), "contents".to_string());
    s.deny_open(name.clone());
    let strict = s.load_strict(&name);
    let f = strict.unwrap_err();
    assert_eq!(f.kind(), FailureKind::Other);
    assert!(!f.diagnostic().is_empty());
    let recovered = s.load_or_create(&name);
    assert_eq!(recovered.unwrap_err().kind(), FailureKind::Other);
}

#[test]
fn load_or_create_twice_is_idempotent() {
    let mut s = Store::new();
    let name = "fresh.txt".to_string();
    let first = s.load_or_create(&name);
    assert_eq!(first.unwrap(), "".to_string());
    let second = s.load_or_create(&name);
    assert_eq!(second.unwrap(), "".to_string());
}

#[test]
fn empty_name_is_an_ordinary_name() {
    let mut s = Store::new();
    let name = "".to_string();
    let r = s.load_or_create(&name);
    assert_eq!(r.unwrap(), "".to_string());
    let strict = s.load_strict(&name);
    assert_eq!(strict.unwrap(), "".to_string());
}

#[test]
fn resources_are_independent() {
    let mut s = Store::new();
    s.put("a.txt".to_string(), "alpha".to_string());
    s.put("b.txt".to_string(), "beta".to_string());
    s.deny_read("a.txt".to_string());
    let a = s.load_strict(&"a.txt".to_string());
    assert_eq!(a.unwrap_err().kind(), FailureKind::ReadFailed);
    let b = s.load_strict(&"b.txt".to_string());
    assert_eq!(b.unwrap(), "beta".to_string());
}

#[test]
fn empty_content_round_trips() {
    let mut s = Store::new();
    let name = "blank.txt".to_string();
    s.put(name.clone(), "".to_string());
    let r = s.load_strict(&name);
    assert_eq!(r.unwrap(), "".to_string());
}
