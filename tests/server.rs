use daylit_tray::auth::{eq_ignore_ascii_case, generate_secret, validate_request, Header, SECRET_LEN};

#[test]
fn test_validate_request_success() {
    let secret = "my_secret_token";
    let headers = vec![
        Header::new("Content-Type", "application/json"),
        Header::new("X-Daylit-Secret", "my_secret_token"),
    ];
    assert!(validate_request(&headers, secret));
}

#[test]
fn test_validate_request_failure_wrong_secret() {
    let secret = "my_secret_token";
    let headers = vec![Header::new("X-Daylit-Secret", "wrong_token")];
    assert!(!validate_request(&headers, secret));
}

#[test]
fn test_validate_request_failure_missing_header() {
    let secret = "my_secret_token";
    let headers = vec![Header::new("Content-Type", "application/json")];
    assert!(!validate_request(&headers, secret));
}

#[test]
fn test_validate_request_case_insensitive_header_name() {
    let secret = "my_secret_token";
    let headers = vec![Header::new("x-daylit-secret", "my_secret_token")];
    assert!(validate_request(&headers, secret));
}

#[test]
fn upper_case_header_name_authenticates() {
    let headers = vec![Header::new("X-DAYLIT-SECRET", "abc")];
    assert!(validate_request(&headers, "abc"));
}

#[test]
fn secret_prefix_or_extension_is_rejected() {
    assert!(!validate_request(&[Header::new("X-Daylit-Secret", "abc")], "abcd"));
    assert!(!validate_request(&[Header::new("X-Daylit-Secret", "abcd")], "abc"));
    assert!(!validate_request(&[Header::new("X-Daylit-Secret", "")], "abc"));
}

#[test]
fn first_secret_header_decides() {
    let headers = vec![
        Header::new("x-daylit-secret", "wrong"),
        Header::new("X-Daylit-Secret", "right"),
    ];
    assert!(!validate_request(&headers, "right"));
    let headers = vec![
        Header::new("X-Daylit-Secret", "right"),
        Header::new("X-Daylit-Secret", "wrong"),
    ];
    assert!(validate_request(&headers, "right"));
}

#[test]
fn no_headers_is_unauthentic() {
    assert!(!validate_request(&[], "abc"));
}

#[test]
fn ascii_case_folding_only_touches_letters() {
    assert!(eq_ignore_ascii_case(b"X-Daylit", b"x-dAYLIT"));
    assert!(!eq_ignore_ascii_case(b"X_Daylit", b"x-daylit"));
    assert!(!eq_ignore_ascii_case(b"@", b"`"));
    assert!(!eq_ignore_ascii_case(b"abc", b"ab"));
    assert!(eq_ignore_ascii_case(b"", b""));
}

#[test]
fn generated_secret_is_32_alphanumerics() {
    let s = generate_secret().expect("the OS supplies randomness");
    assert_eq!(s.len(), SECRET_LEN);
    assert!(s.bytes().all(|b| b.is_ascii_alphanumeric()));
    let t = generate_secret().expect("the OS supplies randomness");
    assert_ne!(s, t);
}

#[test]
fn constant_time_comparison_agrees_with_plain_equality() {
    let values = ["", "a", "ab", "abc", "abd", "abcd", "ABC", "my_secret_token", "my_secret_tokeN", "é", "e"];
    for expected in values {
        for given in values {
            let headers = vec![Header::new("X-Daylit-Secret", given)];
            assert_eq!(
                validate_request(&headers, expected),
                given.as_bytes() == expected.as_bytes(),
                "{:?} against {:?}",
                given,
                expected
            );
        }
    }
}
