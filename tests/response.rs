use pinentry::error::AssuanError;
use pinentry::response::Response;

#[test]
fn ok_response_converts_to_string() {
    assert_eq!(Response::Success(None).to_string(), "OK");
    assert_eq!(Response::Success(Some("foo".to_string())).to_string(), "OK foo");
}

#[test]
fn error_response_converts_to_string() {
    assert_eq!(
        Response::Error(AssuanError::UnknownIPCCommand).to_string(),
        "ERR 536871187 Unknown IPC command <User defined source 1>"
    );
}

#[test]
fn data_response_converts_to_string() {
    assert_eq!(Response::Data("foo".to_string()).to_string(), "D foo");
}
