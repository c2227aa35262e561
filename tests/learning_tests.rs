use learning_rs::{largest, qs, quick_sort};

#[test]
fn test_add_i32() {
    assert_eq!(learning_rs::add(1, 2), 3)
}

#[test]
fn test_add_f64() {
    assert_eq!(learning_rs::add(1.1, 2.5), 3.6)
}

#[test]
fn test_largest() {
    let arr = vec![1, 3, 2, 5, 4];
    assert_eq!(largest(&arr), &5);
}

#[test]
fn test_largest_using_max() {
    let arr = vec![1, 3, 2, 5, 4];
    assert_eq!(arr.iter().max(), Some(&5));
}

#[test]
fn test_qs() {
    let arr = vec![1, 3, 2, 5, 4];
    assert_eq!(qs(arr), vec![1, 2, 3, 4, 5]);
}

#[test]
fn test_quick_sort_with_num() {
    let mut arr = vec![1, 3, 2, 5, 4];
    quick_sort(&mut arr);
    assert_eq!(arr, vec![1, 2, 3, 4, 5]);
}

#[test]
fn test_quick_sort_with_char() {
    let mut arr = vec!['a', 'c', 'b', 'e', 'd'];
    quick_sort(&mut arr);
    assert_eq!(arr, vec!['a', 'b', 'c', 'd', 'e']);
}

#[test]
fn add_of_negative_integers() {
    assert_eq!(learning_rs::add(-7i64, 3i64), -4);
}

#[test]
fn largest_of_single_element_and_of_ties() {
    assert_eq!(largest(&[42]), &42);
    let chars = ['x', 'z', 'a', 'z'];
    assert_eq!(largest(&chars), &'z');
    let negatives = [-5, -2, -9];
    assert_eq!(largest(&negatives), &-2);
}

#[test]
fn qs_keeps_duplicates_and_handles_small_inputs() {
    assert_eq!(qs(vec![]), Vec::<i32>::new());
    assert_eq!(qs(vec![7]), vec![7]);
    assert_eq!(qs(vec![3, 1, 3, 2, 1]), vec![1, 1, 2, 3, 3]);
    assert_eq!(qs(vec![i32::MAX, i32::MIN, 0]), vec![i32::MIN, 0, i32::MAX]);
}

#[test]
fn quick_sort_keeps_duplicates_and_handles_small_inputs() {
    let mut empty: Vec<i32> = vec![];
    quick_sort(&mut empty);
    assert!(empty.is_empty());

    let mut one = vec![9];
    quick_sort(&mut one);
    assert_eq!(one, vec![9]);

    let mut dups = vec![5, 1, 5, 3, 1, 0, 5];
    quick_sort(&mut dups);
    assert_eq!(dups, vec![0, 1, 1, 3, 5, 5, 5]);

    let mut descending: Vec<u64> = (0..20).rev().collect();
    quick_sort(&mut descending);
    assert_eq!(descending, (0..20).collect::<Vec<u64>>());
}

#[test]
fn quick_sort_on_a_subslice() {
    let mut arr = vec![9, 4, 3, 2, 1, 0];
    quick_sort(&mut arr[1..5]);
    assert_eq!(arr, vec![9, 1, 2, 3, 4, 0]);
}

#[test]
fn largest_returns_the_first_of_equal_maxima() {
    let arr = vec![1, 5, 2, 5, 4];
    assert!(std::ptr::eq(largest(&arr), &arr[1]));
}
