use clash_backend::models::ApiError;

#[test]
fn fetch_error_line() {
    assert_eq!(
        ApiError::FetchError("connection refused".to_string()).to_string(),
        "Failed to fetch player data: connection refused"
    );
}

#[test]
fn invalid_player_tag_line() {
    assert_eq!(
        ApiError::InvalidPlayerTag("too short".to_string()).to_string(),
        "Invalid player tag: too short"
    );
}

#[test]
fn clash_api_error_line() {
    assert_eq!(
        ApiError::ClashApiError {
            reason: "notFound".to_string(),
            message: "Player not found".to_string(),
        }
        .to_string(),
        "API error: notFound - Player not found"
    );
}

#[test]
fn internal_error_line() {
    assert_eq!(
        ApiError::InternalError("JSON parsing error: eof".to_string()).to_string(),
        "Internal server error: JSON parsing error: eof"
    );
}

#[test]
fn empty_details_leave_the_heading() {
    assert_eq!(ApiError::FetchError(String::new()).to_string(), "Failed to fetch player data: ");
    assert_eq!(
        ApiError::ClashApiError { reason: String::new(), message: String::new() }.to_string(),
        "API error:  - "
    );
}
