use atc::registry::SignatureRegistry;

#[test]
fn new_registry_holds_nothing() {
    let registry = SignatureRegistry::new();
    assert!(!registry.contains(""));
    assert!(!registry.contains("abc"));
}

#[test]
fn inserted_signature_is_found() {
    let mut registry = SignatureRegistry::new();
    registry.insert("first".to_string());
    assert!(registry.contains("first"));
    assert!(!registry.contains("second"));
    assert!(!registry.contains("firs"));
    assert!(!registry.contains("first "));
}

#[test]
fn earlier_signatures_stay() {
    let mut registry = SignatureRegistry::new();
    for i in 0..50 {
        registry.insert(format!("signature-{}", i));
    }
    for i in 0..50 {
        assert!(registry.contains(&format!("signature-{}", i)));
    }
    assert!(!registry.contains("signature-50"));
}

#[test]
fn inserting_twice_changes_nothing() {
    let mut registry = SignatureRegistry::new();
    registry.insert("same".to_string());
    registry.insert("same".to_string());
    assert!(registry.contains("same"));
    assert!(!registry.contains("other"));
}

#[test]
fn empty_signature_can_be_registered() {
    let mut registry = SignatureRegistry::default();
    assert!(!registry.contains(""));
    registry.insert(String::new());
    assert!(registry.contains(""));
}
