use std::sync::{Arc, Mutex};

use dataverse::callback::CallbackFun;
use dataverse::request::{FormPart, RequestBody, RequestType};

#[test]
fn plain_request_has_no_body() {
    let plan = RequestType::Plain.to_plan();
    assert!(plan.headers.is_empty());
    assert!(matches!(plan.body, RequestBody::Empty));
}

#[test]
fn json_request_sets_content_type() {
    let plan = RequestType::JSON { body: "{}".to_string() }.to_plan();
    assert_eq!(plan.headers, vec![("Content-Type".to_string(), "application/json".to_string())]);
    match plan.body {
        RequestBody::Text(t) => assert_eq!(t, "{}"),
        _ => panic!("expected a text body"),
    }
}

#[test]
fn form_has_texts_then_files_with_their_own_sinks() {
    let hits = Arc::new(Mutex::new(Vec::new()));
    let (h1, h2) = (Arc::clone(&hits), Arc::clone(&hits));
    let shape = RequestType::Multipart {
        bodies: Some(vec![("body".to_string(), "{}".to_string())]),
        files: Some(vec![
            ("file".to_string(), "tests/fixtures/file.txt".to_string()),
            ("other".to_string(), "plain.bin".to_string()),
        ]),
        callbacks: Some(vec![
            ("file".to_string(), CallbackFun::wrap(move |n| h1.lock().unwrap().push(("old", n)))),
            ("file".to_string(), CallbackFun::wrap(move |n| h2.lock().unwrap().push(("new", n)))),
        ]),
    };
    let plan = shape.to_plan();
    assert!(plan.headers.is_empty());
    let parts = match plan.body {
        RequestBody::Form(parts) => parts,
        _ => panic!("expected a form"),
    };
    assert_eq!(parts.len(), 3);
    match &parts[0] {
        FormPart::Text { name, value } => {
            assert_eq!(name, "body");
            assert_eq!(value, "{}");
        }
        _ => panic!("expected a text part"),
    }
    match &parts[1] {
        FormPart::File { name, path, file_name, content_type, callback } => {
            assert_eq!(name, "file");
            assert_eq!(path, "tests/fixtures/file.txt");
            assert_eq!(file_name, "file.txt");
            assert_eq!(content_type, "application/octet-stream");
            callback.as_ref().unwrap().call(9);
        }
        _ => panic!("expected a file part"),
    }
    match &parts[2] {
        FormPart::File { file_name, callback, .. } => {
            assert_eq!(file_name, "plain.bin");
            assert!(callback.is_none());
        }
        _ => panic!("expected a file part"),
    }
    assert_eq!(*hits.lock().unwrap(), vec![("new", 9)]);
}

#[test]
fn absent_form_fields_make_an_empty_form() {
    let plan = RequestType::Multipart { bodies: None, files: None, callbacks: None }.to_plan();
    match plan.body {
        RequestBody::Form(parts) => assert!(parts.is_empty()),
        _ => panic!("expected a form"),
    }
}
