use basics::{foobar, variables};

#[test]
fn variables_returns() {
    variables();
}

#[test]
fn variables_can_be_called_again() {
    variables();
    variables();
}

#[test]
fn foobar_takes_an_integer() {
    foobar(42);
    foobar(5u8);
    foobar(-6i64);
}

#[test]
fn foobar_takes_the_extremes() {
    foobar(i32::MIN);
    foobar(i32::MAX);
    foobar(u128::MAX);
}

#[test]
fn foobar_takes_owned_values() {
    foobar(String::from("text"));
    foobar(vec![1, 2, 3]);
    foobar(Some((1u8, true)));
}

#[test]
fn foobar_takes_a_reference_and_leaves_the_value() {
    let kept = vec![1, 2, 3];
    foobar(&kept);
    assert_eq!(kept, vec![1, 2, 3]);
}

#[test]
fn foobar_takes_unit() {
    foobar(());
}
