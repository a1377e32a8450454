use integration_test_commons::test::assertions::{ExtendedVecAssertions, Mismatch};

#[test]
fn should_not_panic_if_vec_was_expected_to_be_not_empty_and_is_not() {
    vec![1].is_not_empty().unwrap();
}

#[test]
fn should_not_panic_if_vec_contains_exactly_the_expected_values_in_any_order() {
    vec![1, 2, 3].contains_exactly_in_any_order(&vec![1, 2, 3]).unwrap();
    vec![1, 2, 3].contains_exactly_in_any_order(&vec![3, 1, 2]).unwrap();
}

#[test]
fn an_empty_vec_is_a_mismatch() {
    let mismatch = Vec::<u8>::new().is_not_empty().unwrap_err();
    assert_eq!(mismatch, Mismatch::Empty);
    assert_eq!(mismatch.expected().as_deref(), Some("a non-empty vec"));
    assert_eq!(mismatch.actual().as_deref(), Some("an empty vec"));
}

#[test]
fn a_vec_that_does_not_contain_all_expected_values_is_a_mismatch() {
    let mismatch = vec![1, 2].contains_exactly_in_any_order(&vec![1, 2, 3]).unwrap_err();
    assert_eq!(mismatch, Mismatch::Length { expected: 3, actual: 2 });
    assert_eq!(mismatch.expected().as_deref(), Some("vec to have length <3>"));
    assert_eq!(mismatch.actual().as_deref(), Some("<2>"));
}

#[test]
fn a_vec_that_contains_more_than_the_expected_values_is_a_mismatch() {
    let mismatch = vec![1, 2, 3, 3].contains_exactly_in_any_order(&vec![1, 2, 3]).unwrap_err();
    assert_eq!(mismatch, Mismatch::Length { expected: 3, actual: 4 });
    assert_eq!(mismatch.expected().as_deref(), Some("vec to have length <3>"));
    assert_eq!(mismatch.actual().as_deref(), Some("<4>"));
}

#[test]
fn a_vec_with_the_same_number_but_different_values_is_a_mismatch() {
    let mismatch = vec![1, 2, 4].contains_exactly_in_any_order(&vec![1, 2, 3]).unwrap_err();
    assert_eq!(mismatch, Mismatch::Items);
    assert_eq!(mismatch.expected(), None);
    assert_eq!(mismatch.actual(), None);
}

#[test]
fn values_count_as_often_as_they_occur() {
    assert_eq!(vec![1, 1, 2].contains_exactly_in_any_order(&vec![1, 2, 2]), Err(Mismatch::Items));
    assert_eq!(vec![1, 2, 2].contains_exactly_in_any_order(&vec![2, 1, 2]), Ok(()));
    assert_eq!(vec!["a", "a"].contains_exactly_in_any_order(&vec!["a", "a"]), Ok(()));
    assert_eq!(Vec::<u8>::new().contains_exactly_in_any_order(&vec![]), Ok(()));
    assert_eq!(
        vec!["x".to_string()].contains_exactly_in_any_order(&vec!["y".to_string()]),
        Err(Mismatch::Items)
    );
}

/// Fails the test as an assertion does: with what was expected and what was found.
fn fail(mismatch: Mismatch, subject: &Vec<i32>, expected_values: &Vec<i32>) {
    let expected = mismatch
        .expected()
        .unwrap_or_else(|| format!("iterator to contain items <{:?}>", expected_values));
    let actual = mismatch.actual().unwrap_or_else(|| format!("<{:?}>", subject));
    panic!("\u{1b}[31mexpected: {}\n\t but was: {}\u{1b}[0m", expected, actual);
}

fn assert_contains_exactly_in_any_order(subject: Vec<i32>, expected_values: Vec<i32>) {
    if let Err(mismatch) = subject.contains_exactly_in_any_order(&expected_values) {
        fail(mismatch, &subject, &expected_values);
    }
}

#[test]
#[should_panic(expected = "\u{1b}[31mexpected: a non-empty vec\n\t \
    but was: an empty vec\u{1b}[0m")]
fn should_panic_if_vec_was_expected_to_be_not_empty_and_is() {
    let subject = Vec::<i32>::new();
    if let Err(mismatch) = subject.is_not_empty() {
        fail(mismatch, &subject, &vec![]);
    }
}

#[test]
#[should_panic(expected = "\u{1b}[31mexpected: vec to have length <3>\n\t \
    but was: <2>\u{1b}[0m")]
fn should_panic_if_vec_does_not_contain_all_expected_values() {
    assert_contains_exactly_in_any_order(vec![1, 2], vec![1, 2, 3]);
}

#[test]
#[should_panic(expected = "\u{1b}[31mexpected: vec to have length <3>\n\t \
    but was: <4>\u{1b}[0m")]
fn should_panic_if_vec_contains_more_than_the_expected_values() {
    assert_contains_exactly_in_any_order(vec![1, 2, 3, 3], vec![1, 2, 3]);
}

#[test]
#[should_panic(
    expected = "\u{1b}[31mexpected: iterator to contain items <[1, 2, 3]>\n\t \
        but was: <[1, 2, 4]>\u{1b}[0m"
)]
fn should_panic_if_vec_contains_the_same_number_but_different_values_than_the_expected_ones() {
    assert_contains_exactly_in_any_order(vec![1, 2, 4], vec![1, 2, 3]);
}
