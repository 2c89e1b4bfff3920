use quran_segmentation::error::SegmentationError;
use quran_segmentation::json::read_json;
use quran_segmentation::sse::{parse_stream, SseAccumulator, SseStream};

const COMPLETE: &str = "event: complete\ndata: {\"x\":1}\n\n";

fn feed_whole(stream: &mut SseStream, bytes: &[u8]) -> Result<Option<String>, SegmentationError> {
    stream.feed(bytes).map(|doc| doc.map(|d| d.compact))
}

#[test]
fn complete_event_fed_at_once_is_terminal() {
    let mut stream = SseStream::new();
    assert_eq!(feed_whole(&mut stream, COMPLETE.as_bytes()), Ok(Some("{\"x\":1}".to_string())));
}

#[test]
fn complete_event_fed_one_byte_at_a_time_is_terminal() {
    let mut stream = SseStream::new();
    let bytes = COMPLETE.as_bytes();
    for (i, b) in bytes.iter().enumerate() {
        let got = feed_whole(&mut stream, &[*b]);
        if i + 1 < bytes.len() {
            assert_eq!(got, Ok(None), "at byte {}", i);
        } else {
            assert_eq!(got, Ok(Some("{\"x\":1}".to_string())));
        }
    }
}

#[test]
fn complete_event_split_anywhere_parses_identically() {
    let bytes = COMPLETE.as_bytes();
    for cut in 0..=bytes.len() {
        let chunks = vec![bytes[..cut].to_vec(), bytes[cut..].to_vec()];
        let doc = parse_stream(&chunks).unwrap();
        assert_eq!(doc.compact, "{\"x\":1}", "cut at {}", cut);
    }
    for a in 0..bytes.len() {
        for b in a..bytes.len() {
            let chunks = vec![bytes[..a].to_vec(), bytes[a..b].to_vec(), Vec::new(), bytes[b..].to_vec()];
            assert_eq!(parse_stream(&chunks).unwrap().compact, "{\"x\":1}");
        }
    }
}

#[test]
fn carriage_returns_before_line_feeds_are_dropped() {
    let chunks = vec![b"event: complete\r\ndata: {\"x\":1}\r\n\r\n".to_vec()];
    assert_eq!(parse_stream(&chunks).unwrap().compact, "{\"x\":1}");
}

#[test]
fn an_error_event_aborts_with_the_servers_message() {
    let chunks = vec![b"event: error\ndata: {\"error\":\"boom\"}\n\n".to_vec()];
    let err = parse_stream(&chunks).unwrap_err();
    assert_eq!(err, SegmentationError::RemoteStreamError { message: "boom".to_string() });
    assert!(err.message().contains("boom"));
    assert_eq!(err.message(), "Cloud segmentation stream error: boom");
}

#[test]
fn an_error_event_aborts_even_after_earlier_payloads() {
    let mut acc = SseAccumulator::new();
    assert_eq!(acc.push_line("event: generating"), Ok(None));
    assert_eq!(acc.push_line("data: {\"step\":1}"), Ok(None));
    assert_eq!(acc.push_line(""), Ok(None));
    assert_eq!(acc.latest_payload().map(|d| d.compact), Some("{\"step\":1}".to_string()));
    let done = read_json("{\"done\":true}").unwrap();
    assert!(matches!(acc.push_line("event: complete"), Ok(None)));
    let terminal = acc.apply_record(done, None).unwrap();
    assert_eq!(terminal.map(|d| d.compact), Some("{\"done\":true}".to_string()));
    assert!(acc.complete_payload().is_some());
    assert_eq!(acc.push_line("event: error"), Ok(None));
    assert_eq!(acc.push_line("data: {\"error\":\"boom\"}"), Ok(None));
    assert_eq!(
        acc.push_line(""),
        Err(SegmentationError::RemoteStreamError { message: "boom".to_string() })
    );
}

#[test]
fn an_error_event_without_error_string_carries_the_whole_value() {
    let chunks = vec![b"event: error\ndata: {\"code\": 7}\n\n".to_vec()];
    assert_eq!(
        parse_stream(&chunks),
        Err(SegmentationError::RemoteStreamError { message: "{\"code\":7}".to_string() })
    );
    let chunks = vec![b"event: error\ndata: {\"error\": 5}\n\n".to_vec()];
    assert_eq!(
        parse_stream(&chunks),
        Err(SegmentationError::RemoteStreamError { message: "{\"error\":5}".to_string() })
    );
    let chunks = vec![b"event: error\ndata: null\n\n".to_vec()];
    assert_eq!(
        parse_stream(&chunks),
        Err(SegmentationError::RemoteStreamError { message: "null".to_string() })
    );
}

#[test]
fn done_blocks_are_ignored() {
    let mut acc = SseAccumulator::new();
    assert_eq!(acc.push_line("event: complete"), Ok(None));
    assert_eq!(acc.push_line("data: [DONE]"), Ok(None));
    assert_eq!(acc.push_line(""), Ok(None));
    assert_eq!(acc.latest_payload(), None);
    assert_eq!(acc.complete_payload(), None);
    assert_eq!(acc.current_event(), "");
    assert_eq!(acc.current_data(), "");
    assert_eq!(acc.finish(), Err(SegmentationError::StreamEndedWithoutResult));
    let chunks = vec![b"data: {\"a\":1}\n\ndata:   [DONE]  \n\n".to_vec()];
    assert_eq!(parse_stream(&chunks).unwrap().compact, "{\"a\":1}");
}

#[test]
fn a_stream_that_ends_without_payload_fails() {
    assert_eq!(parse_stream(&Vec::new()), Err(SegmentationError::StreamEndedWithoutResult));
    let chunks = vec![b"event: heartbeat\n\n: comment\n\n".to_vec()];
    assert_eq!(parse_stream(&chunks), Err(SegmentationError::StreamEndedWithoutResult));
    let chunks = vec![b"event: complete\ndata: null\n\n".to_vec()];
    assert_eq!(parse_stream(&chunks), Err(SegmentationError::StreamEndedWithoutResult));
}

#[test]
fn at_the_end_complete_wins_over_latest_and_latest_is_the_fallback() {
    let chunks = vec![b"event: generating\ndata: {\"n\":1}\n\nevent: generating\ndata: {\"n\":2}\n\n".to_vec()];
    assert_eq!(parse_stream(&chunks).unwrap().compact, "{\"n\":2}");
    let chunks = vec![b"event: generating\ndata: {\"n\":1}\n\nevent: complete\ndata: {\"n\":2}".to_vec()];
    assert_eq!(parse_stream(&chunks).unwrap().compact, "{\"n\":2}");
    let chunks = vec![b"event: generating\ndata: {\"n\":1}\n\nevent: complete\ndata: {\"n\":2}\n".to_vec()];
    assert_eq!(parse_stream(&chunks).unwrap().compact, "{\"n\":2}");
}

#[test]
fn bytes_after_a_terminal_payload_are_not_read() {
    let chunks = vec![b"event: complete\ndata: [1]\n\nevent: error\ndata: {\"error\":\"late\"}\n\n".to_vec()];
    assert_eq!(parse_stream(&chunks).unwrap().compact, "[1]");
}

#[test]
fn data_lines_are_joined_by_line_feeds() {
    let mut acc = SseAccumulator::new();
    assert_eq!(acc.push_line("data: [1,"), Ok(None));
    assert_eq!(acc.push_line("data:   2]  \r"), Ok(None));
    assert_eq!(acc.current_data(), "[1,\n2]");
    assert_eq!(acc.push_line("event:  complete  "), Ok(None));
    assert_eq!(acc.current_event(), "complete");
    assert_eq!(acc.push_line("ignored line"), Ok(None));
    assert_eq!(acc.push_line("\r").unwrap().map(|d| d.compact), Some("[1,2]".to_string()));
    assert_eq!(acc.current_data(), "");
    assert_eq!(acc.current_event(), "");
}

#[test]
fn malformed_data_is_a_failure_of_its_own() {
    let chunks = vec![b"data: {oops\n\n".to_vec()];
    match parse_stream(&chunks) {
        Err(SegmentationError::MalformedStreamPayload { parse_error }) => {
            assert!(parse_error.contains("key must be a string"), "{}", parse_error)
        }
        other => panic!("expected a malformed payload, got {:?}", other),
    }
}

#[test]
fn invalid_utf8_is_replaced_not_rejected() {
    let mut bytes = b"event: complete\ndata: {\"t\":\"".to_vec();
    bytes.push(0xFF);
    bytes.extend_from_slice(b"\"}\n\n");
    let doc = parse_stream(&vec![bytes]).unwrap();
    assert_eq!(doc.compact, "{\"t\":\"\u{FFFD}\"}");
}

#[test]
fn multibyte_characters_split_across_chunks_survive() {
    let whole = "event: complete\ndata: {\"t\":\"بسم\"}\n\n".as_bytes();
    for cut in 0..=whole.len() {
        let chunks = vec![whole[..cut].to_vec(), whole[cut..].to_vec()];
        assert_eq!(parse_stream(&chunks).unwrap().compact, "{\"t\":\"بسم\"}");
    }
}

#[test]
fn apply_record_judges_a_parsed_document() {
    let mut acc = SseAccumulator::new();
    let doc = read_json("{\"a\":1}").unwrap();
    assert_eq!(acc.apply_record(doc, Some("unused".to_string())).map(|d| d.map(|x| x.compact)), Ok(None));
    assert_eq!(acc.latest_payload().map(|d| d.compact), Some("{\"a\":1}".to_string()));
    assert_eq!(acc.complete_payload(), None);
    assert_eq!(acc.push_line("event: error"), Ok(None));
    let doc = read_json("{\"b\":2}").unwrap();
    assert_eq!(
        acc.apply_record(doc, Some("told".to_string())),
        Err(SegmentationError::RemoteStreamError { message: "told".to_string() })
    );
    assert_eq!(acc.current_event(), "error");
}
