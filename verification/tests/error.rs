use firebase_rest::error::{first_error, ApiError};

fn err(m: &str) -> ApiError {
    ApiError::new(m.to_string())
}

#[test]
fn first_error_collects_all_successes() {
    let out: Result<Vec<u8>, ApiError> = first_error(vec![Ok(1), Ok(2), Ok(3)]);
    assert_eq!(out, Ok(vec![1, 2, 3]));
    let none: Result<Vec<u8>, ApiError> = first_error(vec![]);
    assert_eq!(none, Ok(vec![]));
}

#[test]
fn first_error_returns_the_earliest_failure() {
    let out: Result<Vec<u8>, ApiError> = first_error(vec![Ok(1), Err(err("second")), Ok(3), Err(err("fourth"))]);
    assert_eq!(out, Err(err("second")));
    let first: Result<Vec<u8>, ApiError> = first_error(vec![Err(err("first")), Err(err("other"))]);
    assert_eq!(first, Err(err("first")));
}
