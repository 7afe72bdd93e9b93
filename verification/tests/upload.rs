use axum_demo::error::RequestError;
use axum_demo::response::{Body, Response};
use axum_demo::upload::{
    admit_upload, upload_file_action, upload_response, FileWrite, UploadField, MAX_UPLOAD_SIZE,
};

const LIMIT: usize = 10 * 1024 * 1024;

fn named(name: &str, data: Vec<u8>) -> Option<UploadField> {
    Some(UploadField { file_name: Some(String::from(name)), data })
}

#[test]
fn limit_is_ten_mebibytes() {
    assert_eq!(MAX_UPLOAD_SIZE, 10_485_760);
}

#[test]
fn body_within_the_limit_is_admitted() {
    assert_eq!(admit_upload(0), Ok(()));
    assert_eq!(admit_upload(1), Ok(()));
    assert_eq!(admit_upload(10_485_759), Ok(()));
    assert_eq!(admit_upload(10_485_760), Ok(()));
}

#[test]
fn body_over_the_limit_is_refused() {
    assert_eq!(admit_upload(10_485_761), Err(RequestError::PayloadTooLarge));
    assert_eq!(admit_upload(u64::MAX), Err(RequestError::PayloadTooLarge));
}

#[test]
fn small_file_is_written_byte_for_byte() {
    let data = vec![0u8, 1, 2, 255, 10, 13, 0];
    assert_eq!(
        upload_file_action(200, named("notes.txt", data.clone())),
        Ok(FileWrite { path: String::from("notes.txt"), data })
    );
}

#[test]
fn empty_file_is_written() {
    assert_eq!(
        upload_file_action(150, named("empty", Vec::new())),
        Ok(FileWrite { path: String::from("empty"), data: Vec::new() })
    );
}

#[test]
fn file_name_is_kept_as_it_came() {
    for name in ["../up/one.txt", "/abs/path", "with space.bin", "", "\u{e9}.txt"] {
        assert_eq!(
            upload_file_action(100, named(name, vec![1, 2, 3])),
            Ok(FileWrite { path: String::from(name), data: vec![1, 2, 3] })
        );
    }
}

#[test]
fn largest_file_under_the_limit_is_written() {
    let data = vec![7u8; LIMIT - 1];
    let out = upload_file_action(MAX_UPLOAD_SIZE, named("big", data.clone()));
    assert_eq!(out, Ok(FileWrite { path: String::from("big"), data }));
}

#[test]
fn file_of_the_limit_is_refused() {
    let data = vec![7u8; LIMIT];
    assert_eq!(
        upload_file_action(MAX_UPLOAD_SIZE, named("big", data)),
        Err(RequestError::PayloadTooLarge)
    );
}

#[test]
fn file_over_the_limit_is_refused() {
    let data = vec![7u8; LIMIT + 1];
    assert_eq!(upload_file_action(0, named("big", data)), Err(RequestError::PayloadTooLarge));
}

#[test]
fn body_over_the_limit_is_refused_whatever_it_holds() {
    assert_eq!(
        upload_file_action(MAX_UPLOAD_SIZE + 1, named("a", vec![1])),
        Err(RequestError::PayloadTooLarge)
    );
    assert_eq!(upload_file_action(MAX_UPLOAD_SIZE + 1, None), Err(RequestError::PayloadTooLarge));
    assert_eq!(
        upload_file_action(u64::MAX, Some(UploadField { file_name: None, data: Vec::new() })),
        Err(RequestError::PayloadTooLarge)
    );
}

#[test]
fn missing_field_is_a_decode_error() {
    assert_eq!(upload_file_action(0, None), Err(RequestError::DecodeError));
    assert_eq!(upload_file_action(MAX_UPLOAD_SIZE, None), Err(RequestError::DecodeError));
}

#[test]
fn missing_file_name_is_a_decode_error() {
    let field = UploadField { file_name: None, data: vec![1, 2, 3] };
    assert_eq!(upload_file_action(100, Some(field)), Err(RequestError::DecodeError));
}

#[test]
fn large_file_without_name_is_too_large() {
    let field = UploadField { file_name: None, data: vec![0u8; LIMIT] };
    assert_eq!(upload_file_action(100, Some(field)), Err(RequestError::PayloadTooLarge));
}

#[test]
fn written_upload_is_answered_ok() {
    assert_eq!(upload_response(true), Response { status: 200, body: Body::Empty });
}

#[test]
fn failed_write_is_an_io_error() {
    assert_eq!(upload_response(false), Response { status: 500, body: Body::Empty });
    assert_eq!(upload_response(false).status, RequestError::IOError.status());
}
