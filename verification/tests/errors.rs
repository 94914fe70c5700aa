use pompom::{NotificationError, NotifyResult, ParseError, PomodoroError};

#[test]
fn parse_error_keeps_its_message() {
    let error = ParseError::new(String::from("bad minutes"));
    assert_eq!(error.message, Some(String::from("bad minutes")));
}

#[test]
fn parse_error_reads_with_and_without_message() {
    let with = ParseError::new(String::from("bad minutes"));
    assert_eq!(with.describe(), "error occurred while parsing: bad minutes");
    let without = ParseError { message: None };
    assert_eq!(without.describe(), "error occurred while parsing");
    let empty = ParseError::new(String::new());
    assert_eq!(empty.describe(), "error occurred while parsing: ");
}

#[test]
fn notification_errors_read_as_documented() {
    assert_eq!(
        NotificationError::Desktop(String::from("no bus")).describe(),
        "NotificationError::Desktop"
    );
    assert_eq!(NotificationError::EmptyConfiguration.describe(), "configuration is empty");
    assert_eq!(
        NotificationError::NewNotification(ParseError::new(String::from("x"))).describe(),
        "failed to get new notification: error occurred while parsing: x"
    );
    assert_eq!(
        NotificationError::NewNotification(ParseError { message: None }).describe(),
        "failed to get new notification: error occurred while parsing"
    );
    assert_eq!(
        NotificationError::DeletionFail(String::from("could not delete 7")).describe(),
        "could not delete 7"
    );
}

#[test]
fn error_kinds_are_distinct() {
    let kinds = [
        PomodoroError::NotificationError,
        PomodoroError::ConfigurationError,
        PomodoroError::UdsHandlerError,
        PomodoroError::UserInputHandlerError,
        PomodoroError::ParseError,
    ];
    for (i, one) in kinds.iter().enumerate() {
        for (j, other) in kinds.iter().enumerate() {
            assert_eq!(one == other, i == j);
        }
    }
}

#[test]
fn notify_result_carries_a_notification_error() {
    let failed: NotifyResult = Err(NotificationError::EmptyConfiguration);
    assert_eq!(failed, Err(NotificationError::EmptyConfiguration));
    let fine: NotifyResult = Ok(());
    assert!(fine.is_ok());
}
