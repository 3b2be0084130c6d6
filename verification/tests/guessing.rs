use rust_book::guessing_game::check_guess;
use rust_book::guessing_game::new_secret;
use rust_book::guessing_game::Guess;
use rust_book::guessing_game::GuessOutcome;
use rust_book::guessing_game::OutOfRangeError;

#[test]
fn guess_within_range_succeeds() {
    for v in [1, 2, 50, 99, 100] {
        let guess = Guess::new(v).unwrap();
        assert_eq!(guess.value(), v);
    }
}

#[test]
fn guess_out_of_range_fails() {
    for v in [0, -1, -100, 101, 200, i32::MIN, i32::MAX] {
        assert_eq!(Guess::new(v), Err(OutOfRangeError));
    }
}

#[test]
fn secret_lies_within_range() {
    for _ in 0..50 {
        let secret = new_secret();
        let v = secret.value();
        assert!(1 <= v && v <= 100);
    }
}

#[test]
fn check_guess_reports_each_outcome() {
    let secret = Guess::new(50).unwrap();
    let low = Guess::new(10).unwrap();
    let high = Guess::new(90).unwrap();
    let equal = Guess::new(50).unwrap();
    assert_eq!(check_guess(&low, &secret), GuessOutcome::TooSmall);
    assert_eq!(check_guess(&high, &secret), GuessOutcome::TooBig);
    assert_eq!(check_guess(&equal, &secret), GuessOutcome::Correct);
}
