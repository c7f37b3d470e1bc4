#[test]
fn test_add_basic() {
    assert_eq!(shell_core::utils::add(2, 3), 5);
    assert_eq!(shell_core::utils::add(-1, 1), 0);
    assert_eq!(shell_core::utils::add(0, 0), 0);
}

#[test]
fn test_add_large_values() {
    assert_eq!(shell_core::utils::add(100, 200), 300);
    assert_eq!(shell_core::utils::add(i32::MAX - 1, 1), i32::MAX);
    assert_eq!(shell_core::utils::add(i32::MIN + 1, -1), i32::MIN);
}
