use gb_core::dmg::version;

#[test]
fn test_framework_is_working() {
    assert!(true == true);
}

#[test]
fn test_version_string() {
    let v = version();
    assert!(!v.is_empty());
    assert!(v.contains("core"));
}
