use lanewise::arch::Sse;
use lanewise::Func;

#[test]
fn token_is_given_where_the_feature_was_found() {
    assert!(Sse::new(true).is_some());
    assert!(Sse::new(false).is_none());
    assert_eq!(Sse::new(true), Sse::new(true));
}

#[test]
fn token_runs_a_closure() {
    let sse = Sse::new(true).unwrap();
    let base = 40;
    assert_eq!(sse.run(|| base + 2), 42);
    let text = String::from("moved");
    assert_eq!(sse.run(move || text), "moved");
}

#[test]
fn closures_are_called_once() {
    let count = vec![1, 2, 3];
    assert_eq!((move || count.len()).call(), 3);
    fn seven() -> u8 {
        7
    }
    assert_eq!(seven.call(), 7);
}
