use lib::numbers::{add_repeatedly, average, sum_checked};

#[test]
fn average_of_zero_to_thousand() {
    let numbers: Vec<usize> = (0..=1000).collect();
    assert_eq!(average(&numbers), 500);
}

#[test]
fn average_rounds_down() {
    assert_eq!(average(&[1, 2]), 1);
    assert_eq!(average(&[7]), 7);
    assert_eq!(average(&[1, 2, 3, 4]), 2);
}

#[test]
fn add_repeatedly_adds_times() {
    let mut c: i32 = 0;
    add_repeatedly(&mut c, 100);
    assert_eq!(c, 100);
    add_repeatedly(&mut c, 0);
    assert_eq!(c, 100);
    let mut d: i32 = -5;
    add_repeatedly(&mut d, 10);
    assert_eq!(d, 5);
}

#[test]
fn sum_checked_sums_or_refuses() {
    assert_eq!(sum_checked(&[1, 2, 3]), Some(6));
    assert_eq!(sum_checked(&[]), Some(0));
    assert_eq!(sum_checked(&[usize::MAX, 0]), Some(usize::MAX));
    assert_eq!(sum_checked(&[usize::MAX, 1]), None);
    let numbers: Vec<usize> = (0..=1000).collect();
    assert_eq!(sum_checked(&numbers), Some(500500));
}
