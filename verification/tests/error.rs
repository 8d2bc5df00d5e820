use paldeck::PalError;

#[test]
fn each_error_has_its_message() {
    assert_eq!(
        PalError::NoPalFound("Lambal".to_string()).message(),
        "No Pal named `Lambal` was found"
    );
    assert_eq!(
        PalError::Reqwest("connection refused".to_string()).message(),
        "Error fetching from API: `connection refused`"
    );
    assert_eq!(PalError::TokenExpired.message(), "Discord token is expired");
    assert_eq!(PalError::MissingContent.message(), "Missing content in response from API");
    assert_eq!(
        PalError::Unexpected("Unexpected status code: 404 Not Found".to_string()).message(),
        "Unexpected error: `Unexpected status code: 404 Not Found`"
    );
}

#[test]
fn an_empty_cause_leaves_empty_quotes() {
    assert_eq!(PalError::NoPalFound(String::new()).message(), "No Pal named `` was found");
    assert_eq!(PalError::Unexpected(String::new()).message(), "Unexpected error: ``");
}

#[test]
fn the_reply_marks_the_message_as_an_error() {
    assert_eq!(PalError::TokenExpired.reply(), "**Error**: Discord token is expired");
    assert_eq!(
        PalError::NoPalFound("Lambal".to_string()).reply(),
        "**Error**: No Pal named `Lambal` was found"
    );
}

#[test]
fn only_a_name_that_was_not_found_stays_out_of_the_log() {
    assert!(!PalError::NoPalFound("Lambal".to_string()).is_logged());
    assert!(PalError::Reqwest("timed out".to_string()).is_logged());
    assert!(PalError::TokenExpired.is_logged());
    assert!(PalError::MissingContent.is_logged());
    assert!(PalError::Unexpected("x".to_string()).is_logged());
}
