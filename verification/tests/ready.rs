use lib::ready::ready_indices;

#[test]
fn indices_of_ready_flags() {
    assert_eq!(ready_indices(&[false, true, false, true, true]), vec![1, 3, 4]);
    assert_eq!(ready_indices(&[false; 10]), Vec::<usize>::new());
    assert_eq!(ready_indices(&[true; 3]), vec![0, 1, 2]);
    assert_eq!(ready_indices(&[]), Vec::<usize>::new());
}
