use cowin_notify::fetch::{classify_status, AppError};

#[test]
fn ok_status_is_accepted() {
    assert_eq!(classify_status(200), Ok(()));
}

#[test]
fn server_error_fails_with_its_code() {
    assert_eq!(classify_status(500), Err(AppError::RequestFailed(500)));
}

#[test]
fn every_other_status_fails_with_its_code() {
    assert_eq!(classify_status(404), Err(AppError::RequestFailed(404)));
    assert_eq!(classify_status(201), Err(AppError::RequestFailed(201)));
    assert_eq!(classify_status(302), Err(AppError::RequestFailed(302)));
}

#[test]
fn request_failure_names_the_code() {
    assert_eq!(AppError::RequestFailed(500).describe(), "Bad Return Code: 500");
}

#[test]
fn each_error_has_its_own_line() {
    assert_eq!(AppError::FetchError.describe(), "Failed to reach the appointment API");
    assert_eq!(AppError::DecodeError.describe(), "Failed to decode the API response");
    assert_eq!(AppError::NotifyError.describe(), "Failed to post message to the webhook");
}
