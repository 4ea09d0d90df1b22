use rust_basics::take_and_return;

#[test]
fn take_and_return_appends_four() {
    let v = take_and_return(vec![1, 2, 3]);
    assert_eq!(v, vec![1, 2, 3, 4]);
}

#[test]
fn take_and_return_empty() {
    assert_eq!(take_and_return(Vec::new()), vec![4]);
}

#[test]
fn take_and_return_twice() {
    let v = take_and_return(take_and_return(vec![7]));
    assert_eq!(v, vec![7, 4, 4]);
}
