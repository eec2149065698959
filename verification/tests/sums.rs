use kitties::sums::{recursive, sum_by_fold, sum_by_recursive};

#[test]
fn sum_by_recursive_adds_up() {
    assert_eq!(sum_by_recursive(&[127, 200, 4]), Some(331));
}

#[test]
fn sum_by_fold_adds_up() {
    assert_eq!(sum_by_fold(&[127, 200, 4]), Some(331));
}

#[test]
fn sum_of_nothing_is_zero() {
    assert_eq!(sum_by_recursive(&[]), Some(0));
    assert_eq!(sum_by_fold(&[]), Some(0));
}

#[test]
fn sum_at_the_limit_fits() {
    assert_eq!(sum_by_recursive(&[u32::MAX - 1, 1]), Some(u32::MAX));
    assert_eq!(sum_by_fold(&[u32::MAX - 1, 1]), Some(u32::MAX));
    assert_eq!(sum_by_recursive(&[u32::MAX, 0, 0]), Some(u32::MAX));
}

#[test]
fn sum_beyond_the_limit_is_none() {
    assert_eq!(sum_by_recursive(&[u32::MAX, 1]), None);
    assert_eq!(sum_by_fold(&[u32::MAX, 1]), None);
    assert_eq!(sum_by_recursive(&[1, u32::MAX, 5]), None);
    assert_eq!(sum_by_fold(&[5, 1, u32::MAX]), None);
}

#[test]
fn recursive_sums_the_rest() {
    let args = [10, 20, 30, 40];
    assert_eq!(recursive(&args, 0), Some(100));
    assert_eq!(recursive(&args, 2), Some(70));
    assert_eq!(recursive(&args, 4), Some(0));
    assert_eq!(recursive(&args, 9), Some(0));
}

#[test]
fn recursive_skips_what_lies_before_the_index() {
    let args = [u32::MAX, u32::MAX, 7];
    assert_eq!(recursive(&args, 0), None);
    assert_eq!(recursive(&args, 1), None);
    assert_eq!(recursive(&args, 2), Some(7));
}
