use the_book::guess::Guess;

#[test]
fn addition() {
    assert_eq!(4, 2 + 2);
    assert_ne!(5, 2 + 2);
}

#[test]
fn guess_keeps_the_value() {
    let g = Guess::new(1);
    assert_eq!(g.value(), 1);
    let g = Guess::new(42);
    assert_eq!(g.value(), 42);
    let g = Guess::new(100);
    assert_eq!(g.value(), 100);
}
