use tough::http::{
    build_request, fetch_with_retries, Attempt, ClientSettings, FetchStep, ReadOutcome, ReadStep,
    RetryState,
};
use tough::RetryRead;

fn settings(tries: u32) -> ClientSettings {
    ClientSettings {
        timeout: 30_000,
        connect_timeout: 10_000,
        tries,
        initial_backoff: 100,
        max_backoff: 1_000,
        backoff_factor: 1_500,
    }
}

fn reading(accept_ranges: Option<&[u8]>, tries: u32) -> RetryRead {
    RetryRead {
        retry_state: RetryState::new(100),
        settings: settings(tries),
        accept_ranges: accept_ranges.map(|v| v.to_vec()),
        url: "http://example.com/targets/file1.txt".to_string(),
    }
}

fn failed(cause: &str) -> ReadOutcome {
    ReadOutcome::Failed { cause: cause.to_string() }
}

#[test]
fn accept_ranges_bytes_is_support() {
    assert!(reading(Some(b"bytes"), 4).supports_range());
    assert!(reading(Some(b"none, bytes"), 4).supports_range());
    assert!(reading(Some(b"\tbytes "), 4).supports_range());
}

#[test]
fn no_accept_ranges_is_no_support() {
    assert!(!reading(None, 4).supports_range());
    assert!(!reading(Some(b""), 4).supports_range());
    assert!(!reading(Some(b"none"), 4).supports_range());
    assert!(!reading(Some(b"byte"), 4).supports_range());
    assert!(!reading(Some(b"BYTES"), 4).supports_range());
    assert!(!reading(Some(b"byt es"), 4).supports_range());
}

#[test]
fn accept_ranges_that_is_no_text_is_no_support() {
    assert!(!reading(Some(b"bytes\xff"), 4).supports_range());
    assert!(!reading(Some(b"\x80bytes"), 4).supports_range());
    assert!(!reading(Some(b"bytes\x7f"), 4).supports_range());
    assert!(!reading(Some(b"bytes\n"), 4).supports_range());
    assert!(!reading(Some(b"\x00bytes"), 4).supports_range());
}

#[test]
fn error_is_handed_back_without_range_support() {
    let e = "unexpected end of file".to_string();
    assert_eq!(reading(Some(b"bytes"), 4).err_if_no_range_support(e.clone()), Ok(()));
    assert_eq!(reading(Some(b"none"), 4).err_if_no_range_support(e.clone()), Err(e.clone()));
    assert_eq!(reading(None, 4).err_if_no_range_support(e.clone()), Err(e));
}

#[test]
fn bytes_that_were_read_are_counted() {
    let mut read = reading(Some(b"bytes"), 4);
    assert!(matches!(read.read(ReadOutcome::Data(20)), ReadStep::Deliver(20)));
    assert_eq!(read.retry_state.next_byte, 20);
    assert!(matches!(read.read(ReadOutcome::Data(11)), ReadStep::Deliver(11)));
    assert_eq!(read.retry_state.next_byte, 31);
    assert!(matches!(read.read(ReadOutcome::Data(0)), ReadStep::Deliver(0)));
    assert_eq!(read.retry_state.next_byte, 31);
    assert_eq!(read.retry_state.current_try, 0);
    assert_eq!(read.retry_state.wait, 100);
}

#[test]
fn failed_read_resumes_at_the_offset_already_read() {
    let mut read = reading(Some(b"bytes"), 4);
    read.read(ReadOutcome::Data(17));
    match read.read(failed("connection reset")) {
        ReadStep::Resume { wait } => assert_eq!(wait, 100),
        _ => panic!("the server takes byte ranges"),
    }
    assert_eq!(read.retry_state, RetryState { current_try: 1, wait: 100, next_byte: 17 });
    let request = build_request(read.retry_state.next_byte, &read.url);
    assert_eq!(request.url, "http://example.com/targets/file1.txt");
    assert_eq!(request.range.as_deref(), Some("bytes=17-"));
}

#[test]
fn failed_read_without_range_support_is_surfaced_at_once() {
    for accept_ranges in [None, Some(&b"none"[..])] {
        let mut read = reading(accept_ranges, 4);
        read.read(ReadOutcome::Data(17));
        match read.read(failed("connection reset")) {
            ReadStep::Surface { cause } => assert_eq!(cause, "connection reset"),
            _ => panic!("the server does not take byte ranges"),
        }
        assert_eq!(read.retry_state.next_byte, 17);
    }
}

#[test]
fn failed_read_on_the_last_try_is_surfaced() {
    let mut read = reading(Some(b"bytes"), 4);
    read.retry_state.current_try = 3;
    match read.read(failed("timed out")) {
        ReadStep::Surface { cause } => assert_eq!(cause, "timed out"),
        _ => panic!("no try is left"),
    }
    assert_eq!(read.retry_state.current_try, 3);
}

#[test]
fn resumed_read_keeps_its_counters() {
    let cs = settings(4);
    let mut read = reading(Some(b"bytes"), 4);
    read.read(ReadOutcome::Data(8));
    assert!(matches!(read.read(failed("reset")), ReadStep::Resume { wait: 100 }));
    // The fetch that resumes the read fails once more, then succeeds.
    let step = fetch_with_retries(
        &mut read.retry_state,
        &cs,
        "http://example.com/targets/file1.txt",
        Attempt::NoResponse { cause: "refused".to_string() },
    );
    assert!(matches!(step, FetchStep::Retry { wait: 150 }));
    let step = fetch_with_retries(
        &mut read.retry_state,
        &cs,
        "http://example.com/targets/file1.txt",
        Attempt::Response { status: 206, accept_ranges: None },
    );
    let fetched = match step {
        FetchStep::Ready(fetched) => fetched,
        _ => panic!("the try succeeded"),
    };
    assert_eq!(fetched.retry_state, RetryState { current_try: 2, wait: 150, next_byte: 8 });
    read.resume_with(fetched);
    assert_eq!(read.retry_state, RetryState { current_try: 2, wait: 150, next_byte: 8 });
    assert_eq!(read.accept_ranges, None);
    assert_eq!(read.url, "http://example.com/targets/file1.txt");
    // The new response does not take ranges: the next failure is final.
    assert!(matches!(read.read(failed("reset again")), ReadStep::Surface { .. }));
}
