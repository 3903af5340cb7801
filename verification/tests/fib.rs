use bindable_thread_pool::fib::fibonacci_recursive;

#[test]
fn fibonacci_small_values() {
    assert_eq!(fibonacci_recursive(1), 1);
    assert_eq!(fibonacci_recursive(2), 1);
    assert_eq!(fibonacci_recursive(3), 2);
    assert_eq!(fibonacci_recursive(4), 3);
    assert_eq!(fibonacci_recursive(10), 55);
}

#[test]
fn fibonacci_medium_value() {
    assert_eq!(fibonacci_recursive(30), 832040);
}
