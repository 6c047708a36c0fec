use ascot::error::{Error, ErrorKind};

#[test]
fn controller_error() {
    let error = Error::new(ErrorKind::Discovery, "Process failed.");

    assert_eq!(error.to_string(), r"Discovery: Process failed.");
}

#[test]
fn error_kind_descriptions() {
    assert_eq!(ErrorKind::Discovery.description(), "Discovery");
    assert_eq!(ErrorKind::Request.description(), "Request");
    assert_eq!(ErrorKind::WrongParameter.description(), "Wrong Parameter");
    assert_eq!(ErrorKind::JsonResponse.description(), "Json Response");
    assert_eq!(ErrorKind::StreamResponse.description(), "Stream Response");
    assert_eq!(ErrorKind::Sender.description(), "Response Sender");
    assert_eq!(ErrorKind::Events.description(), "Events");
}

#[test]
fn error_keeps_kind_and_description() {
    let error = Error::new(ErrorKind::WrongParameter, "`x` does not exist");
    assert_eq!(error.kind(), ErrorKind::WrongParameter);
    assert_eq!(error.description(), "`x` does not exist");
    assert_eq!(error.format(), "Wrong Parameter: `x` does not exist");
}
