use kernel::volatile::KVolatile;

#[test]
fn basic_test() {
    let value = 42;
    let mut wrapped_value = KVolatile::new(value);
    assert_eq!(wrapped_value.read(), 42);

    wrapped_value.write(54);
    assert_eq!(wrapped_value.read(), 54);
}
