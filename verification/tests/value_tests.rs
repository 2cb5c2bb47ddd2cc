use kata::EmailString;
use kata::Error;
use kata::Fact;
use kata::Random;

#[test]
fn test_emailstring_valid() {
    let email = EmailString::try_from("user@example.com");
    assert!(email.is_ok());
    assert_eq!(email.unwrap().0, "user@example.com");
}

#[test]
fn test_emailstring_invalid() {
    let email = EmailString::try_from("invalid-email");
    assert!(email.is_err());
    assert_eq!(email.unwrap_err(), "Invalid email address");
}

#[test]
fn emailstring_rejects_empty() {
    assert!(EmailString::try_from("").is_err());
}

#[test]
fn test_random_deref() {
    let random = Random::new(10, 20, 30);
    for _ in 0..10 {
        let value = *random.pick();
        assert!(value == 10 || value == 20 || value == 30);
    }
}

#[test]
fn test_random_values() {
    let random = Random::new(10, 20, 30);
    assert_eq!(random.values, [10, 20, 30]);
}

#[test]
fn fact_serves_one_of_three_vec_facts() {
    let vec_fact: Fact<Vec<i32>> = Fact::new();
    for _ in 0..10 {
        let f = vec_fact.fact();
        assert!(
            f == "Vec is heap-allocated." || f == "Vec may re-allocate on growing."
                || f == "Vec has an amortized O(1) push operation."
        );
    }
}

#[test]
fn fact_serves_one_of_three_string_facts() {
    let string_fact: Fact<String> = Fact::new();
    let f = string_fact.fact();
    assert!(
        f == "String is UTF-8 encoded." || f == "String is dynamically sized."
            || f == "String is backed by a Vec<u8>."
    );
}

#[test]
fn fact_serves_one_of_three_option_facts() {
    let option_fact: Fact<Option<i32>> = Fact::new();
    let f = option_fact.fact();
    assert!(
        f == "Option represents an optional value." || f == "Option can be None or Some."
            || f == "Option is commonly used to handle nullable values."
    );
}

#[test]
fn fact_serves_one_of_three_result_facts() {
    let result_fact: Fact<Result<i32, String>> = Fact::new();
    let f = result_fact.fact();
    assert!(
        f == "Result represents success or failure." || f == "Result has Ok and Err variants."
            || f == "Result is used for error handling."
    );
}

#[test]
fn creates_error_with_default_values() {
    let err = Error::default();
    assert_eq!(err.code, "UNKNOWN");
    assert_eq!(err.status, 500);
    assert_eq!(err.message, "Unknown error has happened.");
}

#[test]
fn allows_chaining_methods_to_customize_error() {
    let mut err = Error::new("INVALID_INPUT");
    err.set_status(400);
    err.set_message("Invalid input provided");

    assert_eq!(err.code, "INVALID_INPUT");
    assert_eq!(err.status, 400);
    assert_eq!(err.message, "Invalid input provided");
}

#[test]
fn error_status_and_message_setters_match_their_aliases() {
    let mut err = Error::new("NO_USER");
    err.status(404);
    err.message("User not found");
    assert_eq!(err.code, "NO_USER");
    assert_eq!(err.status, 404);
    assert_eq!(err.message, "User not found");
}
