use dataverse::response::{Message, NestedMessage, Status};

#[test]
fn test_status_eq() {
    let ok = Status::OK;
    let error = Status::ERROR;

    assert_eq!(ok, ok);
    assert_eq!(error, error);
    assert_ne!(ok, error);
}

#[test]
fn test_status_as_str() {
    let ok = Status::OK;
    let error = Status::ERROR;

    assert_eq!(ok.as_str(), "OK");
    assert_eq!(error.as_str(), "ERROR");
}

#[test]
fn test_status_is_ok() {
    let ok = Status::OK;
    let error = Status::ERROR;

    assert!(ok.is_ok());
    assert!(!error.is_ok());
}

#[test]
fn test_status_is_err() {
    let ok = Status::OK;
    let error = Status::ERROR;

    assert!(!ok.is_err());
    assert!(error.is_err());
}

#[test]
fn test_message_display() {
    let plain_message = Message::PlainMessage("plain message".to_string());
    let nested_message = Message::NestedMessage(NestedMessage {
        message: Some("nested message".to_string()),
    });

    assert_eq!(plain_message.to_text(), "plain message");
    assert_eq!(nested_message.to_text(), "nested message");
}

#[test]
fn test_nested_message_display() {
    let nested_message = NestedMessage {
        message: Some("nested message".to_string()),
    };

    assert_eq!(nested_message.to_text(), "nested message");
}
