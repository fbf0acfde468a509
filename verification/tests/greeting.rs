use toolchain_guard::greeting::hello_world;

#[test]
fn test_hello_world() {
    assert_eq!(hello_world(), "Hello, world!")
}

#[test]
fn greeting_is_the_same_on_every_call() {
    assert_eq!(hello_world(), hello_world());
    assert_eq!(hello_world().len(), 13);
}
