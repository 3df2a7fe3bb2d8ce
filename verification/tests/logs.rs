use futures::StreamExt;
use testcontainers::logs::{
    contains_substring, end_of_stream, handle_line, scan_events, scan_lines, LogStream,
    ScanOutcome, WaitError,
};

#[test]
fn given_logs_when_line_contains_message_should_find_it() {
    let log_stream = LogStream::new(
        r"
            Message one
            Message two
            Message three
        "
        .as_bytes(),
    );

    let result = log_stream.wait_for_message("Message three");

    assert!(result.is_ok())
}

#[test]
fn success_after_scanning_exactly_to_the_matching_line() {
    let lines = vec![
        "booting".to_string(),
        "loading config".to_string(),
        "Creating new log file".to_string(),
        "ready".to_string(),
    ];
    match scan_lines(lines, "Creating new log file") {
        ScanOutcome::Found { scanned } => assert_eq!(scanned, 3),
        ScanOutcome::EndOfStream { .. } => panic!("expected the message to be found"),
    }
}

#[test]
fn match_position_ignores_what_follows() {
    let short = vec!["a".to_string(), "target here".to_string()];
    let long = vec![
        "a".to_string(),
        "target here".to_string(),
        "noise".to_string(),
        "more noise".to_string(),
    ];
    let scanned_short = match scan_lines(short, "target") {
        ScanOutcome::Found { scanned } => scanned,
        ScanOutcome::EndOfStream { .. } => panic!("expected a match"),
    };
    let scanned_long = match scan_lines(long, "target") {
        ScanOutcome::Found { scanned } => scanned,
        ScanOutcome::EndOfStream { .. } => panic!("expected a match"),
    };
    assert_eq!(scanned_short, 2);
    assert_eq!(scanned_long, 2);
}

#[test]
fn end_of_stream_carries_all_lines_in_order() {
    let stream = LogStream::new("booting\nfailed".as_bytes());
    match stream.wait_for_message("ready") {
        Err(WaitError::EndOfStream(lines)) => {
            assert_eq!(lines, vec!["booting".to_string(), "failed".to_string()]);
        }
        _ => panic!("expected EndOfStream"),
    }
}

#[test]
fn scan_of_unmatching_lines_buffers_the_full_sequence() {
    let lines = vec!["one".to_string(), "two".to_string(), "three".to_string()];
    match scan_lines(lines.clone(), "absent") {
        ScanOutcome::EndOfStream { buffered } => assert_eq!(buffered, lines),
        ScanOutcome::Found { .. } => panic!("nothing should match"),
    }
}

#[test]
fn matching_is_case_sensitive_and_exact() {
    assert!(!contains_substring("warn: starting", "Starting"));
    assert!(contains_substring("warn: Starting now", "Starting"));
    assert!(!contains_substring("Startin", "Starting"));
}

#[test]
fn empty_target_matches_any_line() {
    assert!(contains_substring("anything", ""));
    assert!(contains_substring("", ""));
}

#[test]
fn handle_line_buffers_only_non_matching_lines() {
    let mut buffered: Vec<String> = Vec::new();
    assert!(!handle_line("no match here".to_string(), "ready", &mut buffered));
    assert_eq!(buffered, vec!["no match here".to_string()]);
    assert!(handle_line("now ready".to_string(), "ready", &mut buffered));
    assert_eq!(buffered, vec!["no match here".to_string()]);
}

#[test]
fn event_scan_succeeds_on_a_match_before_any_error() {
    let events: Vec<Result<String, std::io::Error>> = vec![
        Ok("booting".to_string()),
        Ok("now ready".to_string()),
        Err(std::io::Error::new(std::io::ErrorKind::Other, "late failure")),
    ];
    assert!(scan_events(events, "ready").is_ok());
}

#[test]
fn event_scan_fails_with_io_when_an_error_comes_first() {
    let events: Vec<Result<String, std::io::Error>> = vec![
        Ok("booting".to_string()),
        Err(std::io::Error::new(std::io::ErrorKind::UnexpectedEof, "cut off")),
        Ok("now ready".to_string()),
    ];
    match scan_events(events, "ready") {
        Err(WaitError::Io(e)) => {
            assert_eq!(e.kind(), std::io::ErrorKind::UnexpectedEof);
        }
        _ => panic!("expected the stream failure to surface as Io"),
    }
}

#[test]
fn event_scan_without_match_or_error_reports_end_of_stream() {
    let events: Vec<Result<String, std::io::Error>> =
        vec![Ok("one".to_string()), Ok("two".to_string())];
    match scan_events(events, "ready") {
        Err(WaitError::EndOfStream(lines)) => {
            assert_eq!(lines, vec!["one".to_string(), "two".to_string()]);
        }
        _ => panic!("expected EndOfStream"),
    }
}

struct FailingReader;

impl std::io::Read for FailingReader {
    fn read(&mut self, _buf: &mut [u8]) -> std::io::Result<usize> {
        Err(std::io::Error::new(std::io::ErrorKind::Other, "broken stream"))
    }
}

#[test]
fn unreadable_stream_fails_with_io() {
    let stream = LogStream::new(FailingReader);
    match stream.wait_for_message("ready") {
        Err(WaitError::Io(_)) => {}
        _ => panic!("expected an Io failure"),
    }
}

#[test]
fn io_error_converts_into_wait_error() {
    let e = std::io::Error::new(std::io::ErrorKind::Other, "gone");
    assert!(matches!(WaitError::from(e), WaitError::Io(_)));
}

#[test]
fn into_inner_returns_the_untouched_source() {
    let stream = LogStream::new("raw bytes".as_bytes());
    let mut inner = stream.into_inner();
    let mut out = String::new();
    std::io::Read::read_to_string(&mut inner, &mut out).unwrap();
    assert_eq!(out, "raw bytes");
}

async fn wait_for_message_suspending<S>(mut stream: S, message: &str) -> Result<(), WaitError>
where
    S: futures::Stream<Item = Result<String, std::io::Error>> + Unpin,
{
    let mut buffered: Vec<String> = Vec::new();
    loop {
        match stream.next().await {
            Some(Ok(line)) => {
                if handle_line(line, message, &mut buffered) {
                    return Ok(());
                }
            }
            Some(Err(e)) => return Err(WaitError::Io(e)),
            None => return Err(end_of_stream(buffered)),
        }
    }
}

#[test]
fn blocking_and_suspending_variants_agree_on_failure() {
    let blocking = LogStream::new("booting\nfailed".as_bytes()).wait_for_message("ready");

    let lines = vec!["booting".to_string(), "failed".to_string()];
    let stream = futures::stream::iter(lines.into_iter().map(Ok::<String, std::io::Error>));
    let suspending = futures::executor::block_on(wait_for_message_suspending(stream, "ready"));

    match (blocking, suspending) {
        (Err(WaitError::EndOfStream(a)), Err(WaitError::EndOfStream(b))) => assert_eq!(a, b),
        _ => panic!("expected EndOfStream from both variants"),
    }
}

#[test]
fn blocking_and_suspending_variants_agree_on_success() {
    let blocking =
        LogStream::new("booting\nCreating new log file\nready".as_bytes())
            .wait_for_message("Creating new log file");

    let lines = vec![
        "booting".to_string(),
        "Creating new log file".to_string(),
        "ready".to_string(),
    ];
    let stream = futures::stream::iter(lines.into_iter().map(Ok::<String, std::io::Error>));
    let suspending = futures::executor::block_on(wait_for_message_suspending(
        stream,
        "Creating new log file",
    ));

    assert!(blocking.is_ok());
    assert!(suspending.is_ok());
}
