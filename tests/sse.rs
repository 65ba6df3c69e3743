use ag_ui_client::error::AgUiClientError;
use ag_ui_client::sse::{parse_sse_event, process_raw_sse_events, SseDecoder};

#[test]
fn test_process_raw_sse_events() {
    // Test with a single complete event
    let buffer = "data: {\"event_type\":\"test\",\"data\":\"hello\"}\n\n";
    let (events, new_buffer) = process_raw_sse_events(buffer);
    assert_eq!(events.len(), 1);
    assert_eq!(new_buffer, "");
    let event = events[0].as_ref().unwrap();
    assert_eq!(event.data, "{\"event_type\":\"test\",\"data\":\"hello\"}");

    // Test with multiple events
    let buffer = "data: {\"event_type\":\"test1\",\"data\":\"hello1\"}\n\n\
                  data: {\"event_type\":\"test2\",\"data\":\"hello2\"}\n\n";
    let (events, new_buffer) = process_raw_sse_events(buffer);
    assert_eq!(events.len(), 2);
    assert_eq!(new_buffer, "");

    // Test with incomplete event
    let buffer = "data: {\"event_type\":\"test\",\"data\":\"hello\"}";
    let (events, new_buffer) = process_raw_sse_events(buffer);
    assert_eq!(events.len(), 0);
    assert_eq!(new_buffer, buffer);

    // Test with complete and incomplete events
    let buffer = "data: {\"event_type\":\"test1\",\"data\":\"hello1\"}\n\n\
                  data: {\"event_type\":\"test2\",\"data\":\"hello2\"}";
    let (events, new_buffer) = process_raw_sse_events(buffer);
    assert_eq!(events.len(), 1);
    assert_eq!(
        new_buffer,
        "data: {\"event_type\":\"test2\",\"data\":\"hello2\"}"
    );
}

#[test]
fn test_parse_sse_event() {
    // Test with event and data
    let event_text = "event: ping\ndata: {\"message\":\"hello\"}";
    let sse_event = parse_sse_event(event_text).unwrap();
    assert_eq!(sse_event.event, Some("ping".to_string()));
    assert_eq!(sse_event.id, None);
    assert_eq!(sse_event.data, "{\"message\":\"hello\"}");

    // Test with event, id, and data
    let event_text = "event: update\nid: 123\ndata: {\"status\":\"ok\"}";
    let sse_event = parse_sse_event(event_text).unwrap();
    assert_eq!(sse_event.event, Some("update".to_string()));
    assert_eq!(sse_event.id, Some("123".to_string()));
    assert_eq!(sse_event.data, "{\"status\":\"ok\"}");

    // Test with multi-line data
    let event_text = "event: message\ndata: line 1\ndata: line 2\ndata: line 3";
    let sse_event = parse_sse_event(event_text).unwrap();
    assert_eq!(sse_event.event, Some("message".to_string()));
    assert_eq!(sse_event.data, "line 1\nline 2\nline 3");
}

#[test]
fn test_different_event_types() {
    let buffer = "event: ping\ndata: {\"message\":\"hello\"}\n\n\
                  event: update\ndata: {\"id\":123,\"status\":\"ok\"}\n\n";

    let (raw_events, new_buffer) = process_raw_sse_events(buffer);
    assert_eq!(raw_events.len(), 2);
    assert_eq!(new_buffer, "");

    let ping_event = raw_events[0].as_ref().unwrap();
    let update_event = raw_events[1].as_ref().unwrap();

    assert_eq!(ping_event.event, Some("ping".to_string()));
    assert_eq!(update_event.event, Some("update".to_string()));

    let ping_data: serde_json::Value = serde_json::from_str(&ping_event.data).unwrap();
    assert_eq!(ping_data["message"].as_str(), Some("hello"));

    let update_data: serde_json::Value = serde_json::from_str(&update_event.data).unwrap();
    assert_eq!(update_data["id"].as_u64(), Some(123));
    assert_eq!(update_data["status"].as_str(), Some("ok"));
}

#[test]
fn test_enum_event_types() {
    let buffer = "event: ping\ndata: {\"value\":\"ping data\"}\n\n\
                  event: update\ndata: {\"value\":\"update data\"}\n\n\
                  event: message\ndata: {\"value\":\"message data\"}\n\n";

    let (raw_events, _) = process_raw_sse_events(buffer);
    assert_eq!(raw_events.len(), 3);

    for raw_event in raw_events {
        let sse_event = raw_event.unwrap();
        let event_type = sse_event.event.unwrap();
        let data: serde_json::Value = serde_json::from_str(&sse_event.data).unwrap();
        let value = data["value"].as_str().unwrap().to_string();
        match event_type.as_str() {
            "ping" => assert_eq!(value, "ping data"),
            "update" => assert_eq!(value, "update data"),
            "message" => assert_eq!(value, "message data"),
            other => panic!("unexpected event type {other}"),
        }
    }
}

#[test]
fn single_data_frame_decodes_with_empty_remainder() {
    let (events, rest) = process_raw_sse_events("data: X\n\n");
    assert_eq!(events.len(), 1);
    let e = events[0].as_ref().unwrap();
    assert_eq!(e.data, "X");
    assert_eq!(e.event, None);
    assert_eq!(e.id, None);
    assert_eq!(rest, "");
}

#[test]
fn unterminated_frame_is_retained_whole() {
    let buffer = "event: ping\ndata: X\n";
    let (events, rest) = process_raw_sse_events(buffer);
    assert!(events.is_empty());
    assert_eq!(rest, buffer);
}

#[test]
fn data_lines_join_with_newline() {
    let e = parse_sse_event("data: a\ndata: b").unwrap();
    assert_eq!(e.data, "a\nb");
}

#[test]
fn only_one_leading_space_is_stripped_and_unknown_fields_ignored() {
    let e = parse_sse_event("retry: 100\ndata:  two\r\nid:  7 \nevent:a\nevent: b").unwrap();
    assert_eq!(e.data, " two");
    assert_eq!(e.id, Some("7".to_string()));
    assert_eq!(e.event, Some("b".to_string()));
}

#[test]
fn empty_buffer_and_blank_segments_yield_nothing() {
    let (events, rest) = process_raw_sse_events("");
    assert!(events.is_empty());
    assert_eq!(rest, "");
    let (events, rest) = process_raw_sse_events("\n\n\n\n");
    assert!(events.is_empty());
    assert_eq!(rest, "");
}

#[test]
fn chunked_input_decodes_like_whole_input() {
    let whole = "event: a\ndata: 1\n\nid: 9\ndata: 2\ndata: 3\n\ndata: tail";
    let (all, all_rest) = process_raw_sse_events(whole);
    for split in 0..whole.len() {
        let mut d = SseDecoder::new();
        let mut got = d.push_str(&whole[..split]);
        got.extend(d.push_str(&whole[split..]));
        assert_eq!(got.len(), all.len());
        for (g, w) in got.iter().zip(all.iter()) {
            let (g, w) = (g.as_ref().unwrap(), w.as_ref().unwrap());
            assert_eq!(g.event, w.event);
            assert_eq!(g.id, w.id);
            assert_eq!(g.data, w.data);
        }
        assert_eq!(d.buffered(), all_rest);
    }
    assert_eq!(all_rest, "data: tail");
}

#[test]
fn invalid_utf8_chunk_is_an_sse_error_and_keeps_the_buffer() {
    let mut d = SseDecoder::new();
    assert!(d.push_bytes(b"data: a").unwrap().is_empty());
    let r = d.push_bytes(&[0xff, 0xfe]);
    match r {
        Err(AgUiClientError::SseParse { message }) => {
            assert_eq!(message, "Invalid UTF-8 in event stream");
        }
        _ => panic!("expected an SSE parse error"),
    }
    assert_eq!(d.buffered(), "data: a");
    let frames = d.push_bytes(b"\n\n").unwrap();
    assert_eq!(frames.len(), 1);
    assert_eq!(frames[0].as_ref().unwrap().data, "a");
}

#[test]
fn event_and_id_values_are_trimmed_of_unicode_white_space() {
    let e = parse_sse_event("event:\u{3000}ping\u{a0}\nid:\t42 \r\ndata: x").unwrap();
    assert_eq!(e.event, Some("ping".to_string()));
    assert_eq!(e.id, Some("42".to_string()));
    assert_eq!(e.data, "x");
}

#[test]
fn rerunning_on_remainder_plus_chunk_matches_whole_decoding() {
    let whole = "event: a\ndata: 1\n\n\nid: 9\ndata: 2\n\ndata: tail";
    let (all, all_rest) = process_raw_sse_events(whole);
    for split in 0..whole.len() {
        let (mut got, rest) = process_raw_sse_events(&whole[..split]);
        let (more, rest) = process_raw_sse_events(&(rest + &whole[split..]));
        got.extend(more);
        assert_eq!(got.len(), all.len());
        for (g, w) in got.iter().zip(all.iter()) {
            assert_eq!(g.as_ref().unwrap().data, w.as_ref().unwrap().data);
            assert_eq!(g.as_ref().unwrap().id, w.as_ref().unwrap().id);
        }
        assert_eq!(rest, all_rest);
    }
}
