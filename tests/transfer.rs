use std::sync::{Arc, Mutex};

use dataverse::callback::CallbackFun;
use dataverse::checksum::{Checksum, ChecksumCalculator};
use dataverse::error::TransferError;
use dataverse::register::{
    register_file_call, register_multiple_files_call, DirectUploadBody,
};
use dataverse::request::{Method, RequestType};
use dataverse::response::{Message, Response, Status};
use dataverse::tickets::{is_multipart, parse_s3_url, process_ticket, ticket_request, TicketResponse};
use dataverse::uploader::{
    collect_bodies, get_file_name, put_request, start_batch, FileUpload, UploadAction,
    UploadEvent, UploadStage,
};
use dataverse::progress::ProgressTracker;
use dataverse::identifier::Identifier;
use dataverse::upload::{replace_file_call, upload_file_to_dataset_call};

/// What a reader does with one read: count it and pass the increment on.
fn deliver(tracker: &mut ProgressTracker, n: usize) -> Option<u64> {
    let inc = tracker.record(n);
    if let Some(inc) = inc {
        if let Some(sink) = tracker.sink_handle() {
            sink.call(inc);
        }
    }
    inc
}


fn single_ticket(url: &str, id: &str) -> TicketResponse {
    TicketResponse {
        url: Some(url.to_string()),
        urls: vec![],
        storage_identifier: Some(id.to_string()),
    }
}

fn multipart_ticket() -> TicketResponse {
    TicketResponse {
        url: None,
        urls: vec!["https://s3/part1".to_string(), "https://s3/part2".to_string()],
        storage_identifier: Some("s3://bucket:big".to_string()),
    }
}

fn ok<T>(data: T) -> Response<T> {
    Response {
        status: Status::OK,
        data: Some(data),
        message: None,
        requestUrl: None,
        requestMethod: None,
    }
}

fn body(description: &str) -> DirectUploadBody {
    DirectUploadBody {
        categories: vec!["Data".to_string()],
        checksum: None,
        description: Some(description.to_string()),
        directory_label: Some("some/path".to_string()),
        file_name: None,
        mime_type: Some("text/plain".to_string()),
        restrict: None,
        storage_identifier: None,
    }
}

fn checksum_of(data: &[u8]) -> Checksum {
    let mut calc = ChecksumCalculator::new();
    calc.update(data);
    calc.finish()
}

#[test]
fn single_and_multipart_tickets_are_told_apart() {
    assert!(!is_multipart(&single_ticket("https://s3/x", "s3://b:1")));
    assert!(is_multipart(&multipart_ticket()));

    let target = process_ticket(ok(single_ticket("https://s3/x", "s3://b:1"))).unwrap();
    assert_eq!(target.url, "https://s3/x");
    assert_eq!(target.storage_identifier, Some("s3://b:1".to_string()));

    assert!(matches!(
        process_ticket(ok(multipart_ticket())),
        Err(TransferError::MultipartUnsupported)
    ));
}

#[test]
fn ticket_errors_carry_the_service_message() {
    let answer: Response<TicketResponse> = Response {
        status: Status::ERROR,
        data: None,
        message: Some(Message::PlainMessage("Dataset not found".to_string())),
        requestUrl: None,
        requestMethod: None,
    };
    match process_ticket(answer) {
        Err(TransferError::Service(m)) => assert_eq!(m, "Dataset not found"),
        _ => panic!("expected a service error"),
    }

    let empty: Response<TicketResponse> = Response {
        status: Status::OK,
        data: None,
        message: None,
        requestUrl: None,
        requestMethod: None,
    };
    assert!(matches!(process_ticket(empty), Err(TransferError::MissingData)));
}

#[test]
fn internal_storage_host_is_rewritten() {
    assert_eq!(
        parse_s3_url(Some("http://localstack:4566/bucket/key".to_string())),
        "http://localhost:4566/bucket/key"
    );
    assert_eq!(
        parse_s3_url(Some("https://s3.example.org/http://localstack".to_string())),
        "https://s3.example.org/http://localstack"
    );
}

#[test]
fn ticket_request_names_dataset_and_size() {
    let call = ticket_request("doi:10.5072/FK2/ABC", 10 * 1024);
    assert_eq!(call.method, Method::GET);
    assert_eq!(call.path, "/api/datasets/:persistentId/uploadurls");
    assert!(matches!(call.context, RequestType::Plain));
    assert_eq!(
        call.parameters.unwrap(),
        vec![
            ("persistentId".to_string(), "doi:10.5072/FK2/ABC".to_string()),
            ("size".to_string(), "10240".to_string()),
        ]
    );
}

#[test]
fn put_carries_length_and_tag() {
    let target = process_ticket(ok(single_ticket("https://s3/x", "s3://b:1"))).unwrap();
    let put = put_request(&target, 1_099_511_627_776);
    assert_eq!(put.url, "https://s3/x");
    assert_eq!(
        put.headers,
        vec![
            ("x-amz-tagging".to_string(), "dv-state=temp".to_string()),
            ("Content-Length".to_string(), "1099511627776".to_string()),
        ]
    );
}

#[test]
fn registration_calls_post_one_json_field() {
    let one = register_file_call("doi:x", "{}".to_string());
    assert_eq!(one.method, Method::POST);
    assert_eq!(one.path, "/api/datasets/:persistentId/add");
    assert_eq!(one.parameters.unwrap(), vec![("persistentId".to_string(), "doi:x".to_string())]);
    match one.context {
        RequestType::Multipart { bodies, files, callbacks } => {
            assert_eq!(bodies.unwrap(), vec![("jsonData".to_string(), "{}".to_string())]);
            assert!(files.is_none());
            assert!(callbacks.is_none());
        }
        _ => panic!("expected a multipart body"),
    }
    let many = register_multiple_files_call("doi:x", "[]".to_string());
    assert_eq!(many.path, "/api/datasets/:persistentId/addFiles");
}

#[test]
fn file_names_come_from_the_path() {
    assert_eq!(get_file_name("tests/fixtures/file.txt"), Some("file.txt".to_string()));
    assert_eq!(get_file_name("/tmp/data/"), Some("data".to_string()));
    assert_eq!(get_file_name("a/.."), None);
}

#[test]
fn transfer_errors_read_as_text() {
    assert_eq!(
        TransferError::MultipartUnsupported.to_text(),
        "Multipart upload not supported yet"
    );
    assert_eq!(TransferError::Io("gone".to_string()).to_text(), "I/O error: gone");
    assert_eq!(TransferError::Service("no".to_string()).to_text(), "no");
}

#[test]
fn scenario_small_file_is_uploaded_and_ready_to_register() {
    let content = vec![42u8; 10 * 1024];
    let mut upload = FileUpload::new("doi:10.5072/FK2/A", get_file_name("tests/fixtures/file.txt"), body("Some description"));
    assert_eq!(upload.stage_now(), UploadStage::Init);

    let call = match upload.handle(UploadEvent::Started { size: content.len() as u64 }) {
        UploadAction::RequestTicket(call) => call,
        _ => panic!("expected a ticket request"),
    };
    assert_eq!(call.parameters.unwrap()[1].1, "10240");

    let put = match upload.handle(UploadEvent::TicketAnswered(Ok(ok(single_ticket(
        "http://localstack:4566/bucket/obj",
        "s3://bucket:obj",
    ))))) {
        UploadAction::Put(put) => put,
        _ => panic!("expected a PUT"),
    };
    assert_eq!(put.url, "http://localhost:4566/bucket/obj");
    assert_eq!(put.headers[1].1, "10240");

    // The PUT streams the file through a progress tracker.
    let mut tracker = ProgressTracker::new(None);
    for chunk in content.chunks(4096) {
        deliver(&mut tracker, chunk.len());
    }
    assert_eq!(tracker.position(), 10 * 1024);

    assert!(matches!(upload.handle(UploadEvent::PutCompleted(Ok(()))), UploadAction::ComputeChecksum));
    assert!(matches!(
        upload.handle(UploadEvent::ChecksumComputed(Ok(checksum_of(&content)))),
        UploadAction::Ready
    ));
    assert_eq!(upload.stage_now(), UploadStage::ReadyToRegister);

    let done = upload.into_outcome().ok().unwrap();
    assert_eq!(done.storage_identifier, Some("s3://bucket:obj".to_string()));
    assert_eq!(done.file_name, Some("file.txt".to_string()));
    let checksum = done.checksum.clone().unwrap();
    assert_eq!(checksum.type_, Some("MD5".to_string()));
    assert_eq!(checksum.value, checksum_of(&content).value);
    assert_eq!(done.description, Some("Some description".to_string()));
    assert_eq!(done.categories, vec!["Data".to_string()]);

    let batch = collect_bodies(vec![Ok(done)]).ok().unwrap();
    let call = register_file_call("doi:10.5072/FK2/A", format!("{} bodies", batch.len()));
    assert_eq!(call.method, Method::POST);
}

#[test]
fn scenario_multipart_ticket_fails_before_any_put() {
    let mut upload = FileUpload::new("doi:x", Some("big.bin".to_string()), body("big"));
    let size = 1024u64.pow(4);
    assert!(matches!(
        upload.handle(UploadEvent::Started { size }),
        UploadAction::RequestTicket(_)
    ));
    assert!(matches!(
        upload.handle(UploadEvent::TicketAnswered(Ok(ok(multipart_ticket())))),
        UploadAction::Abort
    ));
    assert_eq!(upload.stage_now(), UploadStage::Failed);
    // Nothing further happens for a failed transfer.
    assert!(matches!(upload.handle(UploadEvent::PutCompleted(Ok(()))), UploadAction::Ignored));
    assert!(matches!(
        upload.handle(UploadEvent::ChecksumComputed(Ok(checksum_of(b"")))),
        UploadAction::Ignored
    ));
    let outcome = upload.into_outcome();
    assert!(matches!(outcome, Err(TransferError::MultipartUnsupported)));
    // The batch therefore is not registered.
    assert!(matches!(collect_bodies(vec![outcome]), Err(TransferError::MultipartUnsupported)));
}

#[test]
fn failures_at_each_step_abort_the_file() {
    let mut a = FileUpload::new("p", None, body("a"));
    a.handle(UploadEvent::Started { size: 1 });
    assert!(matches!(
        a.handle(UploadEvent::TicketAnswered(Err(TransferError::Transport("refused".to_string())))),
        UploadAction::Abort
    ));
    assert!(matches!(a.into_outcome(), Err(TransferError::Transport(_))));

    let mut b = FileUpload::new("p", None, body("b"));
    b.handle(UploadEvent::Started { size: 1 });
    b.handle(UploadEvent::TicketAnswered(Ok(ok(single_ticket("https://s3/x", "id")))));
    assert!(matches!(
        b.handle(UploadEvent::PutCompleted(Err(TransferError::Transport("403".to_string())))),
        UploadAction::Abort
    ));
    assert!(matches!(b.into_outcome(), Err(TransferError::Transport(_))));

    let mut c = FileUpload::new("p", None, body("c"));
    c.handle(UploadEvent::Started { size: 1 });
    c.handle(UploadEvent::TicketAnswered(Ok(ok(single_ticket("https://s3/x", "id")))));
    c.handle(UploadEvent::PutCompleted(Ok(())));
    assert!(matches!(
        c.handle(UploadEvent::ChecksumComputed(Err(TransferError::Io("vanished".to_string())))),
        UploadAction::Abort
    ));
    assert!(matches!(c.into_outcome(), Err(TransferError::Io(_))));
}

#[test]
fn events_out_of_order_are_ignored() {
    let mut u = FileUpload::new("p", None, body("x"));
    assert!(matches!(u.handle(UploadEvent::PutCompleted(Ok(()))), UploadAction::Ignored));
    assert_eq!(u.stage_now(), UploadStage::Init);
    u.handle(UploadEvent::Started { size: 3 });
    assert!(matches!(u.handle(UploadEvent::Started { size: 4 }), UploadAction::Ignored));
    assert_eq!(u.stage_now(), UploadStage::TicketRequested);
}

fn run_to_end(u: &mut FileUpload, content: &[u8], id: &str) {
    u.handle(UploadEvent::Started { size: content.len() as u64 });
    u.handle(UploadEvent::TicketAnswered(Ok(ok(single_ticket("https://s3/x", id)))));
    u.handle(UploadEvent::PutCompleted(Ok(())));
    u.handle(UploadEvent::ChecksumComputed(Ok(checksum_of(content))));
}

#[test]
fn scenario_batch_keeps_each_files_metadata_in_order() {
    let names = vec![Some("file.txt".to_string()), Some("otherfile.txt".to_string())];
    let mut uploads = start_batch("doi:x", names, vec![body("first"), body("second")]);
    assert_eq!(uploads.len(), 2);

    // Each file makes its own ticket request.
    let sizes = [3u64, 5u64];
    for (u, size) in uploads.iter_mut().zip(sizes) {
        match u.handle(UploadEvent::Started { size }) {
            UploadAction::RequestTicket(call) => {
                assert_eq!(call.parameters.unwrap()[1].1, size.to_string())
            }
            _ => panic!("expected a ticket request"),
        }
    }
    // Answers arrive in reverse order; each file gets its own PUT.
    for (i, id) in [(1usize, "s3://b:two"), (0usize, "s3://b:one")] {
        assert!(matches!(
            uploads[i].handle(UploadEvent::TicketAnswered(Ok(ok(single_ticket("https://s3/x", id))))),
            UploadAction::Put(_)
        ));
    }
    for u in uploads.iter_mut() {
        u.handle(UploadEvent::PutCompleted(Ok(())));
    }
    uploads[1].handle(UploadEvent::ChecksumComputed(Ok(checksum_of(b"hello"))));
    uploads[0].handle(UploadEvent::ChecksumComputed(Ok(checksum_of(b"abc"))));

    let outcomes: Vec<_> = uploads.into_iter().map(|u| u.into_outcome()).collect();
    let batch = collect_bodies(outcomes).ok().unwrap();
    assert_eq!(batch.len(), 2);
    assert_eq!(batch[0].description, Some("first".to_string()));
    assert_eq!(batch[0].file_name, Some("file.txt".to_string()));
    assert_eq!(batch[0].storage_identifier, Some("s3://b:one".to_string()));
    assert_eq!(batch[1].description, Some("second".to_string()));
    assert_eq!(batch[1].file_name, Some("otherfile.txt".to_string()));
    assert_eq!(batch[1].storage_identifier, Some("s3://b:two".to_string()));
    assert_eq!(batch[1].categories, vec!["Data".to_string()]);
}

#[test]
fn one_failure_stops_the_batch() {
    let mut uploads = start_batch("p", vec![None, None, None], vec![body("a"), body("b"), body("c"), body("unused")]);
    assert_eq!(uploads.len(), 3);
    run_to_end(&mut uploads[0], b"a", "1");
    uploads[1].handle(UploadEvent::Started { size: 1 });
    uploads[1].handle(UploadEvent::TicketAnswered(Ok(ok(multipart_ticket()))));
    uploads[2].handle(UploadEvent::Started { size: 1 });
    uploads[2].handle(UploadEvent::TicketAnswered(Err(TransferError::Transport("x".to_string()))));
    let outcomes: Vec<_> = uploads.into_iter().map(|u| u.into_outcome()).collect();
    assert!(matches!(collect_bodies(outcomes), Err(TransferError::MultipartUnsupported)));
    assert!(collect_bodies(vec![]).ok().unwrap().is_empty());
}

#[test]
fn scenario_two_files_report_to_their_own_sinks() {
    let seen_a = Arc::new(Mutex::new(0u64));
    let seen_b = Arc::new(Mutex::new(0u64));
    let (ha, hb) = (Arc::clone(&seen_a), Arc::clone(&seen_b));
    let mut a = ProgressTracker::new(Some(CallbackFun::wrap(move |n| *ha.lock().unwrap() += n)));
    let mut b = ProgressTracker::new(Some(CallbackFun::wrap(move |n| *hb.lock().unwrap() += n)));
    let file_a = vec![1u8; 10 * 1024];
    let file_b = vec![2u8; 3000];
    let mut ca = file_a.chunks(1500);
    let mut cb = file_b.chunks(700);
    loop {
        let na = ca.next().map(|c| c.len()).unwrap_or(0);
        let nb = cb.next().map(|c| c.len()).unwrap_or(0);
        deliver(&mut a, na);
        deliver(&mut b, nb);
        if na == 0 && nb == 0 {
            break;
        }
    }
    assert_eq!(*seen_a.lock().unwrap(), file_a.len() as u64);
    assert_eq!(*seen_b.lock().unwrap(), file_b.len() as u64);
}

#[test]
fn dataset_upload_calls_address_the_dataset() {
    let by_pid = upload_file_to_dataset_call(
        &Identifier::PersistentId("doi:10.5072/FK2/A".to_string()),
        "tests/fixtures/file.txt".to_string(),
        Some("{}".to_string()),
        Some(CallbackFun::wrap(|_| {})),
    );
    assert_eq!(by_pid.method, Method::POST);
    assert_eq!(by_pid.path, "api/datasets/:persistentId/add");
    assert_eq!(
        by_pid.parameters.unwrap(),
        vec![("persistentId".to_string(), "doi:10.5072/FK2/A".to_string())]
    );
    match by_pid.context {
        RequestType::Multipart { bodies, files, callbacks } => {
            assert_eq!(bodies.unwrap(), vec![("jsonData".to_string(), "{}".to_string())]);
            assert_eq!(
                files.unwrap(),
                vec![("file".to_string(), "tests/fixtures/file.txt".to_string())]
            );
            let callbacks = callbacks.unwrap();
            assert_eq!(callbacks.len(), 1);
            assert_eq!(callbacks[0].0, "file");
        }
        _ => panic!("expected a multipart body"),
    }

    let by_id = upload_file_to_dataset_call(&Identifier::Id(42), "f".to_string(), None, None);
    assert_eq!(by_id.path, "api/datasets/42/add");
    assert!(by_id.parameters.is_none());
    match by_id.context {
        RequestType::Multipart { bodies, callbacks, .. } => {
            assert!(bodies.is_none());
            assert!(callbacks.is_none());
        }
        _ => panic!("expected a multipart body"),
    }

    let replace = replace_file_call("17", "f".to_string(), None, None);
    assert_eq!(replace.path, "api/files/17/replace");
    assert!(replace.parameters.is_none());
}

#[test]
fn file_names_skip_dot_and_empty_components() {
    assert_eq!(get_file_name("a/b/."), Some("b".to_string()));
    assert_eq!(get_file_name("./a//"), Some("a".to_string()));
    assert_eq!(get_file_name("file.txt"), Some("file.txt".to_string()));
    assert_eq!(get_file_name("..."), Some("...".to_string()));
    assert_eq!(get_file_name("/"), None);
    assert_eq!(get_file_name("."), None);
    assert_eq!(get_file_name(""), None);
    assert_eq!(get_file_name(".."), None);
}

#[test]
fn tracker_hands_back_its_sink() {
    let (a, b) = (Arc::new(Mutex::new(0u64)), Arc::new(Mutex::new(0u64)));
    let ha = Arc::clone(&a);
    let t = ProgressTracker::new(Some(CallbackFun::wrap(move |n| *ha.lock().unwrap() += n)));
    t.sink_handle().as_ref().unwrap().call(4);
    assert_eq!(*a.lock().unwrap(), 4);
    assert_eq!(*b.lock().unwrap(), 0);
    assert!(ProgressTracker::new(None).sink_handle().is_none());
}
