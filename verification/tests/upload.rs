use std::collections::HashSet;
use std::sync::{Arc, Mutex};

use mountpoint_s3::upload::{UploadError, UploadRequest, Uploader};

/// A backend that keeps finished objects and the keys of open streams in memory.
#[derive(Debug)]
struct MockClient {
    bucket: String,
    objects: Mutex<HashSet<String>>,
    in_progress: Mutex<HashSet<String>>,
}

impl MockClient {
    fn new(bucket: &str) -> MockClient {
        MockClient {
            bucket: bucket.to_owned(),
            objects: Mutex::new(HashSet::new()),
            in_progress: Mutex::new(HashSet::new()),
        }
    }

    fn contains_key(&self, key: &str) -> bool {
        self.objects.lock().unwrap().contains(key)
    }

    fn is_upload_in_progress(&self, key: &str) -> bool {
        self.in_progress.lock().unwrap().contains(key)
    }

    fn put_object(self: &Arc<Self>, bucket: &str, key: &str) -> Result<MockStream, String> {
        if bucket != self.bucket {
            return Err(format!("no such bucket: {bucket}"));
        }
        self.in_progress.lock().unwrap().insert(key.to_owned());
        Ok(MockStream {
            client: Arc::clone(self),
            key: key.to_owned(),
            data: Vec::new(),
            calls: 0,
            fail_writes: false,
            fail_complete: false,
        })
    }
}

#[derive(Debug)]
struct MockStream {
    client: Arc<MockClient>,
    key: String,
    data: Vec<u8>,
    calls: usize,
    fail_writes: bool,
    fail_complete: bool,
}

impl MockStream {
    fn write(&mut self, data: &[u8]) -> Result<(), String> {
        self.calls += 1;
        if self.fail_writes {
            return Err("connection reset".to_owned());
        }
        self.data.extend_from_slice(data);
        Ok(())
    }

    fn complete(self) -> Result<Vec<u8>, String> {
        self.client.in_progress.lock().unwrap().remove(&self.key);
        if self.fail_complete {
            return Err("access denied".to_owned());
        }
        self.client.objects.lock().unwrap().insert(self.key.clone());
        Ok(self.data)
    }
}

struct Handle(Arc<Mutex<u32>>);

impl Drop for Handle {
    fn drop(&mut self) {
        *self.0.lock().unwrap() += 1;
    }
}

type Request<H> = UploadRequest<MockStream, H>;

fn put<H>(uploader: &Uploader<MockClient>, bucket: &str, key: &str, handle: H) -> Result<Request<H>, String> {
    let opened = uploader.client().put_object(bucket, key);
    uploader.put(key, opened, handle)
}

fn write<H>(request: &mut Request<H>, offset: i64, data: &[u8]) -> Result<usize, UploadError<String>> {
    let outcome = match request.begin_write::<String>(offset) {
        Ok(stream) => stream.write(data),
        Err(e) => return Err(e),
    };
    request.finish_write(offset, data.len(), outcome)
}

fn complete<H>(request: &mut Request<H>) -> Result<Vec<u8>, UploadError<String>> {
    let (stream, handle) = request.begin_complete::<String>()?;
    let put = stream.complete();
    drop(handle);
    request.finish_complete(put)
}

fn new_uploader(bucket: &str) -> (Arc<MockClient>, Uploader<MockClient>) {
    let client = Arc::new(MockClient::new(bucket));
    let uploader = Uploader::new(client.clone());
    (client, uploader)
}

#[test]
fn complete_handle_test() {
    let bucket = "bucket";
    let name = "hello";
    let key = name;

    let (client, uploader) = new_uploader(bucket);

    let dropped = Arc::new(Mutex::new(0));
    let handle = Handle(dropped.clone());
    let mut request = put(&uploader, bucket, key, handle).unwrap();

    assert!(!client.contains_key(key));
    assert!(client.is_upload_in_progress(key));
    assert!(*dropped.lock().unwrap() == 0);
    assert!(request.is_in_progress());

    complete(&mut request).unwrap();

    assert!(client.contains_key(key));
    assert!(!client.is_upload_in_progress(key));
    assert!(*dropped.lock().unwrap() == 1);
    assert!(!request.is_in_progress());
}

#[test]
fn write_order_test() {
    let bucket = "bucket";
    let name = "hello";
    let key = name;

    let (client, uploader) = new_uploader(bucket);

    let mut request = put(&uploader, bucket, key, true).unwrap();

    let data = "foo";
    let mut offset = 0;
    offset += write(&mut request, offset, data.as_bytes()).unwrap() as i64;
    assert_eq!(offset, 3);

    let err = write(&mut request, 0, data.as_bytes()).expect_err("out of order write should fail");
    assert!(matches!(
        err,
        UploadError::OutOfOrderWrite { write_offset: 0, expected_offset: 3 }
    ));

    offset += write(&mut request, offset, data.as_bytes()).expect("subsequent in order write should succeed") as i64;

    let object = complete(&mut request).unwrap();
    assert_eq!(object, b"foofoo".to_vec());

    assert!(client.contains_key(key));
    assert!(!request.is_in_progress());

    assert_eq!(offset, request.size() as i64);
    assert_eq!(request.size(), 6);
}

#[test]
fn uploader_keeps_its_client() {
    let (client, uploader) = new_uploader("bucket");
    assert!(Arc::ptr_eq(&client, uploader.client()));
}

#[test]
fn put_starts_at_offset_zero_in_progress() {
    let (_client, uploader) = new_uploader("bucket");
    let request = put(&uploader, "bucket", "some/key", ()).unwrap();
    assert_eq!(request.size(), 0);
    assert!(request.is_in_progress());
    assert_eq!(request.key(), "some/key");
    assert_eq!(request.state_name(), "InProgress");
}

#[test]
fn put_hands_back_the_backend_error_and_releases_the_handle() {
    let (client, uploader) = new_uploader("bucket");
    let dropped = Arc::new(Mutex::new(0));
    let result = put(&uploader, "other", "key", Handle(dropped.clone()));
    match result {
        Err(e) => assert_eq!(e, "no such bucket: other"),
        Ok(_) => panic!("put into an unknown bucket should fail"),
    }
    assert!(!client.is_upload_in_progress("key"));
    assert_eq!(*dropped.lock().unwrap(), 1);
}

#[test]
fn size_is_the_sum_of_accepted_lengths() {
    let (_client, uploader) = new_uploader("bucket");
    let mut request = put(&uploader, "bucket", "key", ()).unwrap();
    let chunks: [&[u8]; 5] = [b"a", b"", b"bcd", b"efghij", b"kl"];
    let mut expected: u64 = 0;
    for chunk in chunks {
        let written = write(&mut request, expected as i64, chunk).unwrap();
        assert_eq!(written, chunk.len());
        expected += chunk.len() as u64;
        assert_eq!(request.size(), expected);
    }
    assert_eq!(request.size(), 12);
    assert_eq!(complete(&mut request).unwrap(), b"abcdefghijkl".to_vec());
    assert_eq!(request.size(), 12);
}

#[test]
fn out_of_order_write_changes_nothing_and_skips_the_backend() {
    let (_client, uploader) = new_uploader("bucket");
    let mut request = put(&uploader, "bucket", "key", ()).unwrap();
    write(&mut request, 0, b"abcd").unwrap();

    for bad in [0i64, 3, 5, 100, i64::MAX] {
        let err = write(&mut request, bad, b"xy").unwrap_err();
        match err {
            UploadError::OutOfOrderWrite { write_offset, expected_offset } => {
                assert_eq!(write_offset, bad as u64);
                assert_eq!(expected_offset, 4);
            }
            other => panic!("unexpected error {other:?}"),
        }
        assert_eq!(request.size(), 4);
        assert!(request.is_in_progress());
    }
    assert_eq!(write(&mut request, 4, b"xy").unwrap(), 2);
    assert_eq!(request.size(), 6);
    let (stream, _handle) = request.begin_complete::<String>().unwrap();
    assert_eq!(stream.calls, 2);
    assert_eq!(stream.data, b"abcdxy".to_vec());
}

#[test]
fn negative_offset_is_out_of_order_and_reported_as_unsigned() {
    let (_client, uploader) = new_uploader("bucket");
    let mut request = put(&uploader, "bucket", "key", ()).unwrap();
    match write(&mut request, -1, b"x").unwrap_err() {
        UploadError::OutOfOrderWrite { write_offset, expected_offset } => {
            assert_eq!(write_offset, u64::MAX);
            assert_eq!(expected_offset, 0);
        }
        other => panic!("unexpected error {other:?}"),
    }
    match write(&mut request, i64::MIN, b"x").unwrap_err() {
        UploadError::OutOfOrderWrite { write_offset, expected_offset } => {
            assert_eq!(write_offset, 1u64 << 63);
            assert_eq!(expected_offset, 0);
        }
        other => panic!("unexpected error {other:?}"),
    }
    assert!(request.is_in_progress());
    assert_eq!(write(&mut request, 0, b"x").unwrap(), 1);
}

#[test]
fn finish_write_refuses_what_begin_write_refuses() {
    let (_client, uploader) = new_uploader("bucket");
    let mut request = put(&uploader, "bucket", "key", ()).unwrap();
    let err = request.finish_write::<String>(7, 3, Ok(())).unwrap_err();
    assert!(matches!(err, UploadError::OutOfOrderWrite { write_offset: 7, expected_offset: 0 }));
    assert_eq!(request.size(), 0);
    let err = request.finish_write(7, 3, Err("lost".to_owned())).unwrap_err();
    assert!(matches!(err, UploadError::OutOfOrderWrite { write_offset: 7, expected_offset: 0 }));
    assert!(request.is_in_progress());
}

#[test]
fn completed_request_refuses_everything() {
    let (_client, uploader) = new_uploader("bucket");
    let mut request = put(&uploader, "bucket", "key", ()).unwrap();
    write(&mut request, 0, b"abc").unwrap();
    complete(&mut request).unwrap();
    assert_eq!(request.state_name(), "Completed");

    for _ in 0..3 {
        assert!(matches!(
            write(&mut request, 3, b"d").unwrap_err(),
            UploadError::PutRequestAlreadyCompleted
        ));
        assert!(matches!(
            complete(&mut request).unwrap_err(),
            UploadError::PutRequestAlreadyCompleted
        ));
        assert!(matches!(
            request.finish_write::<String>(3, 1, Ok(())).unwrap_err(),
            UploadError::PutRequestAlreadyCompleted
        ));
        assert_eq!(request.size(), 3);
        assert!(!request.is_in_progress());
        assert_eq!(request.state_name(), "Completed");
    }
    // The order check comes first, whatever the state.
    assert!(matches!(
        write(&mut request, 0, b"d").unwrap_err(),
        UploadError::OutOfOrderWrite { write_offset: 0, expected_offset: 3 }
    ));
}

#[test]
fn failed_write_poisons_the_request() {
    let (client, uploader) = new_uploader("bucket");
    let dropped = Arc::new(Mutex::new(0));
    let mut request = put(&uploader, "bucket", "key", Handle(dropped.clone())).unwrap();
    write(&mut request, 0, b"abc").unwrap();

    request.begin_write::<String>(3).unwrap().fail_writes = true;
    match write(&mut request, 3, b"def").unwrap_err() {
        UploadError::PutRequestFailed(cause) => assert_eq!(cause, "connection reset"),
        other => panic!("unexpected error {other:?}"),
    }
    assert!(!request.is_in_progress());
    assert_eq!(request.state_name(), "Failed");
    assert_eq!(request.size(), 3);
    assert_eq!(*dropped.lock().unwrap(), 1);

    for _ in 0..3 {
        assert!(matches!(
            write(&mut request, 3, b"def").unwrap_err(),
            UploadError::PutRequestPreviouslyFailed
        ));
        assert!(matches!(
            complete(&mut request).unwrap_err(),
            UploadError::PutRequestPreviouslyFailed
        ));
        assert_eq!(request.state_name(), "Failed");
    }
    assert!(!client.contains_key("key"));
    assert_eq!(*dropped.lock().unwrap(), 1);
}

#[test]
fn failed_complete_poisons_the_request_and_releases_the_handle_once() {
    let (client, uploader) = new_uploader("bucket");
    let dropped = Arc::new(Mutex::new(0));
    let mut request = put(&uploader, "bucket", "key", Handle(dropped.clone())).unwrap();
    write(&mut request, 0, b"abc").unwrap();
    request.begin_write::<String>(3).unwrap().fail_complete = true;

    match complete(&mut request).unwrap_err() {
        UploadError::PutRequestFailed(cause) => assert_eq!(cause, "access denied"),
        other => panic!("unexpected error {other:?}"),
    }
    assert_eq!(*dropped.lock().unwrap(), 1);
    assert_eq!(request.state_name(), "Failed");
    assert!(!client.contains_key("key"));

    assert!(matches!(
        complete(&mut request).unwrap_err(),
        UploadError::PutRequestPreviouslyFailed
    ));
    assert!(matches!(
        write(&mut request, 3, b"d").unwrap_err(),
        UploadError::PutRequestPreviouslyFailed
    ));
    assert_eq!(*dropped.lock().unwrap(), 1);
    drop(request);
    assert_eq!(*dropped.lock().unwrap(), 1);
}

#[test]
fn request_counts_as_completed_while_the_backend_finalises() {
    let (_client, uploader) = new_uploader("bucket");
    let mut request = put(&uploader, "bucket", "key", ()).unwrap();
    let (stream, ()) = request.begin_complete::<String>().unwrap();
    assert!(!request.is_in_progress());
    assert_eq!(request.state_name(), "Completed");
    assert!(matches!(
        request.begin_write::<String>(0).unwrap_err(),
        UploadError::PutRequestAlreadyCompleted
    ));
    assert!(matches!(
        request.begin_complete::<String>().unwrap_err(),
        UploadError::PutRequestAlreadyCompleted
    ));
    let result = request.finish_complete(stream.complete()).unwrap();
    assert_eq!(result, Vec::<u8>::new());
    assert_eq!(request.state_name(), "Completed");
}

#[test]
fn finish_complete_applies_the_answer_whatever_the_state() {
    let (_client, uploader) = new_uploader("bucket");
    let dropped = Arc::new(Mutex::new(0));
    let mut request = put(&uploader, "bucket", "key", Handle(dropped.clone())).unwrap();
    let answer: Result<u8, String> = Ok(7);
    assert_eq!(request.finish_complete(answer).unwrap(), 7);
    assert!(request.is_in_progress());
    assert_eq!(*dropped.lock().unwrap(), 0);

    let answer: Result<u8, String> = Err("gone".to_owned());
    match request.finish_complete(answer).unwrap_err() {
        UploadError::PutRequestFailed(cause) => assert_eq!(cause, "gone"),
        other => panic!("unexpected error {other:?}"),
    }
    assert_eq!(request.state_name(), "Failed");
    assert_eq!(*dropped.lock().unwrap(), 1);
}

#[test]
fn dropping_a_request_in_progress_releases_the_handle_and_leaves_no_object() {
    let (client, uploader) = new_uploader("bucket");
    let dropped = Arc::new(Mutex::new(0));
    let mut request = put(&uploader, "bucket", "key", Handle(dropped.clone())).unwrap();
    write(&mut request, 0, b"abc").unwrap();
    assert_eq!(*dropped.lock().unwrap(), 0);
    drop(request);
    assert_eq!(*dropped.lock().unwrap(), 1);
    assert!(!client.contains_key("key"));
}

#[test]
fn one_uploader_serves_many_requests() {
    let (client, uploader) = new_uploader("bucket");
    let mut first = put(&uploader, "bucket", "first", ()).unwrap();
    let mut second = put(&uploader, "bucket", "second", ()).unwrap();
    write(&mut first, 0, b"1").unwrap();
    write(&mut second, 0, b"22").unwrap();
    write(&mut first, 1, b"333").unwrap();
    assert_eq!(first.size(), 4);
    assert_eq!(second.size(), 2);
    complete(&mut second).unwrap();
    assert!(first.is_in_progress());
    assert!(client.contains_key("second"));
    assert!(!client.contains_key("first"));
}

#[test]
fn upload_error_messages() {
    let failed: UploadError<String> = UploadError::PutRequestFailed("boom".to_owned());
    assert_eq!(failed.describe(), "put request failed");
    let out_of_order: UploadError<String> =
        UploadError::OutOfOrderWrite { write_offset: 0, expected_offset: 3 };
    assert_eq!(
        out_of_order.describe(),
        "out of order write; expected offset 3 but got 0"
    );
    let big: UploadError<String> = UploadError::OutOfOrderWrite {
        write_offset: u64::MAX,
        expected_offset: 1234567890,
    };
    assert_eq!(
        big.describe(),
        "out of order write; expected offset 1234567890 but got 18446744073709551615"
    );
    let completed: UploadError<String> = UploadError::PutRequestAlreadyCompleted;
    assert_eq!(completed.describe(), "put request had already completed");
    let previously: UploadError<String> = UploadError::PutRequestPreviouslyFailed;
    assert_eq!(previously.describe(), "put request had previously failed");
    let too_big: UploadError<String> = UploadError::ObjectTooBig { maximum_size: 5368709120 };
    assert_eq!(
        too_big.describe(),
        "object exceeded maximum upload size of 5368709120 bytes"
    );
}
