use getport::Error;

#[test]
fn exhaustion_is_worded_with_the_attempts() {
    assert_eq!(
        Error::Exhausted(1).to_string(),
        "failed to find usable port after 1 attempts"
    );
    assert_eq!(
        Error::Exhausted(10).to_string(),
        "failed to find usable port after 10 attempts"
    );
    assert_eq!(
        Error::Exhausted(9075).to_string(),
        "failed to find usable port after 9075 attempts"
    );
    assert_eq!(
        Error::Exhausted(100200).to_string(),
        "failed to find usable port after 100200 attempts"
    );
}

#[test]
fn zero_attempts_are_worded_with_one_digit() {
    assert_eq!(
        Error::Exhausted(0).to_string(),
        "failed to find usable port after 0 attempts"
    );
}

#[test]
fn largest_count_is_worded_in_full() {
    assert_eq!(
        Error::Exhausted(usize::MAX).to_string(),
        format!("failed to find usable port after {} attempts", usize::MAX)
    );
}

#[test]
fn errors_compare_by_their_attempts() {
    assert_eq!(Error::Exhausted(2), Error::Exhausted(2));
    assert_ne!(Error::Exhausted(2), Error::Exhausted(3));
    assert_eq!(format!("{:?}", Error::Exhausted(2)), "Exhausted(2)");
}
