use rcli::http_serve::{STATUS_INTERNAL_SERVER_ERROR, STATUS_NOT_FOUND, STATUS_OK};
use rcli::{file_response, FileRead};

#[test]
fn file_that_was_read_is_answered_with_its_text() {
    let text = "[package]\nname = \"demo\"\n".to_string();
    let (status, body) = file_response("\"./Cargo.toml\"", FileRead::Content(text.clone()));
    assert_eq!(status, 200);
    assert_eq!(status, STATUS_OK);
    assert_eq!(body, text);
    assert!(body.trim().starts_with("[package]"));
}

#[test]
fn missing_file_is_not_found() {
    let (status, body) = file_response("\"./nothing.txt\"", FileRead::Missing);
    assert_eq!(status, 404);
    assert_eq!(status, STATUS_NOT_FOUND);
    assert_eq!(body, "File not found: \"./nothing.txt\"");
}

#[test]
fn unreadable_file_is_a_server_error() {
    let reason = "stream did not contain valid UTF-8".to_string();
    let (status, body) = file_response("\"./blob\"", FileRead::Failed(reason.clone()));
    assert_eq!(status, 500);
    assert_eq!(status, STATUS_INTERNAL_SERVER_ERROR);
    assert_eq!(body, reason);
}
