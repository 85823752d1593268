use auvro::ai::{
    delta_content, extract_completion_text, extract_sse_delta_content, sse_delta_payload, title_from_completion,
    title_from_reply, title_request_check, title_retry_step, TitleAttempt, TitleStep,
};
use auvro::chat_pipeline::{
    approximate_tokens, backoff_delay_ms, build_chat_messages, cancel_check, chat_endpoint, chunk_text,
    extract_chunk_text, is_transient_error, read_stream_line, retry_step, sse_data_payload, stream_line_action, trim_ascii_start, LineAction, RetryStep,
};
use auvro::json::JsonValue;
use auvro::message_blocks::{is_error_notice, split_message_blocks, MessageBlock};
use auvro::text::{collapse_whitespace, truncate_chars};

fn s(x: &str) -> String {
    x.to_owned()
}

fn obj(entries: Vec<(&str, JsonValue)>) -> JsonValue {
    JsonValue::Object(entries.into_iter().map(|(k, v)| (k.to_owned(), v)).collect())
}

fn chars(x: &str) -> Vec<char> {
    x.chars().collect()
}

#[test]
fn collapse_whitespace_joins_words_with_single_spaces() {
    assert_eq!(collapse_whitespace("  hello \n\t world  "), "hello world");
    assert_eq!(collapse_whitespace("   "), "");
}

#[test]
fn truncate_chars_counts_characters_not_bytes() {
    assert_eq!(truncate_chars("héllo", 2), "hé");
    assert_eq!(truncate_chars("abc", 10), "abc");
}

#[test]
fn approximate_tokens_takes_larger_estimate() {
    assert_eq!(approximate_tokens(&chars("")), 1);
    assert_eq!(approximate_tokens(&chars("one two three")), 4);
    assert_eq!(approximate_tokens(&chars("a b c d e f")), 6);
}

#[test]
fn build_chat_messages_wraps_history_between_system_and_prompt() {
    let conversation = vec![s("You:  hi there "), s("Auvro:   "), s("Auvro: hello"), s("noise")];
    let messages = build_chat_messages("sys", "next", &conversation, 4096);
    let got: Vec<(String, String)> = messages.iter().map(|m| (m.role.clone(), m.content.clone())).collect();
    assert_eq!(
        got,
        vec![
            (s("system"), s("sys")),
            (s("user"), s("hi there")),
            (s("assistant"), s("hello")),
            (s("user"), s("next")),
        ]
    );
}

#[test]
fn build_chat_messages_drops_old_turns_over_budget() {
    let conversation = vec![s("You: first question"), s("Auvro: first answer")];
    // reserve = 1 + 1 + 32 = 34; the answer costs 3 + 4 = 7, the question 4 + 4 = 8.
    let messages = build_chat_messages("sys", "q", &conversation, 41);
    let got: Vec<(String, String)> = messages.iter().map(|m| (m.role.clone(), m.content.clone())).collect();
    assert_eq!(got, vec![(s("system"), s("sys")), (s("assistant"), s("first answer")), (s("user"), s("q"))]);
    let none = build_chat_messages("sys", "q", &conversation, 10);
    assert_eq!(none.len(), 2);
}

#[test]
fn chat_endpoint_appends_path_once() {
    assert_eq!(chat_endpoint("https://api.example.com/v1/"), "https://api.example.com/v1/chat/completions");
    assert_eq!(chat_endpoint("https://x/chat/completions//"), "https://x/chat/completions");
}

#[test]
fn sse_payload_rules() {
    assert_eq!(trim_ascii_start(b"  \tabc "), b"abc ");
    assert_eq!(sse_data_payload(b"data:  {\"a\":1}"), Some(&b"{\"a\":1}"[..]));
    assert_eq!(sse_data_payload(b": keepalive"), None);
    assert_eq!(sse_data_payload(b"event: x"), None);
    assert_eq!(sse_data_payload(b"data:   "), None);
}

#[test]
fn stream_line_actions() {
    assert!(matches!(stream_line_action(b"data: [DONE]\r\n"), LineAction::Stop));
    assert!(matches!(stream_line_action(b"\n"), LineAction::Continue));
    assert!(matches!(stream_line_action(b"data: status ok\n"), LineAction::Continue));
    match stream_line_action(b"data: {\"x\":1}\r\n") {
        LineAction::Parse(p) => assert_eq!(p, b"{\"x\":1}".to_vec()),
        _ => panic!("expected a chunk to parse"),
    }
}

#[test]
fn chunk_text_prefers_delta_then_message_then_text() {
    let delta = obj(vec![(
        "choices",
        JsonValue::Array(vec![obj(vec![("delta", obj(vec![("content", JsonValue::Str(s("Hi")))]))])]),
    )]);
    assert_eq!(chunk_text(&delta), "Hi");
    let message = obj(vec![(
        "choices",
        JsonValue::Array(vec![obj(vec![("message", obj(vec![("content", JsonValue::Str(s("Whole")))]))])]),
    )]);
    assert_eq!(chunk_text(&message), "Whole");
    assert_eq!(chunk_text(&obj(vec![("text", JsonValue::Str(s("T")))])), "T");
    assert_eq!(chunk_text(&obj(vec![])), "");
}

#[test]
fn transient_errors_and_backoff() {
    assert!(is_transient_error("HTTP 503 Service Unavailable"));
    assert!(is_transient_error("Request failed: Connection Reset by peer"));
    assert!(!is_transient_error("HTTP 401 Unauthorized"));
    assert_eq!(backoff_delay_ms(0), 250);
    assert_eq!(backoff_delay_ms(3), 2000);
    assert_eq!(backoff_delay_ms(70), u64::MAX);
    assert!(matches!(retry_step(false, 0, 3, "timeout"), RetryStep::Retry { wait_ms: 250 }));
    assert!(matches!(retry_step(false, 3, 3, "timeout"), RetryStep::GiveUp));
    assert!(matches!(retry_step(false, 0, 3, "bad key"), RetryStep::GiveUp));
    assert!(matches!(retry_step(true, 0, 3, "timeout"), RetryStep::Cancelled));
}

#[test]
fn completion_text_and_title_cleanup() {
    let body = obj(vec![(
        "choices",
        JsonValue::Array(vec![obj(vec![("message", obj(vec![("content", JsonValue::Str(s("  \"Trip   plans\" ")))]))])]),
    )]);
    let raw = extract_completion_text(&body).unwrap();
    assert_eq!(title_from_completion(&raw), Ok(s("Trip plans")));
    assert_eq!(title_from_completion("  \"\"  "), Err(s("Generated title is empty.")));
    let long: String = "x".repeat(80);
    assert_eq!(title_from_completion(&long).unwrap().chars().count(), 60);
    let parts = obj(vec![(
        "choices",
        JsonValue::Array(vec![obj(vec![(
            "message",
            obj(vec![(
                "content",
                JsonValue::Array(vec![
                    obj(vec![("text", JsonValue::Str(s("Ab")))]),
                    obj(vec![("text", JsonValue::Str(s("cd")))]),
                ]),
            )]),
        )])]),
    )]);
    assert_eq!(extract_completion_text(&parts), Some(s("Abcd")));
    assert_eq!(extract_completion_text(&obj(vec![])), None);
}

#[test]
fn title_retry_decisions() {
    assert!(matches!(title_retry_step(0, 3, &TitleAttempt::Success), TitleStep::Done));
    assert!(matches!(title_retry_step(1, 3, &TitleAttempt::RateLimited), TitleStep::Retry { wait_ms: 2000 }));
    match title_retry_step(3, 3, &TitleAttempt::RateLimited) {
        TitleStep::Fail(e) => assert_eq!(e, "Rate limited"),
        _ => panic!("expected failure"),
    }
    match title_retry_step(0, 3, &TitleAttempt::HttpError(s("404 Not Found"))) {
        TitleStep::Fail(e) => assert_eq!(e, "HTTP 404 Not Found"),
        _ => panic!("expected failure"),
    }
    assert!(matches!(title_retry_step(2, 3, &TitleAttempt::NetworkError(s("x"))), TitleStep::Retry { wait_ms: 2000 }));
    match title_retry_step(3, 3, &TitleAttempt::NetworkError(s("reset"))) {
        TitleStep::Fail(e) => assert_eq!(e, "Network error: reset"),
        _ => panic!("expected failure"),
    }
}

#[test]
fn sse_delta_payload_and_content() {
    assert_eq!(sse_delta_payload("  data: {\"a\":1}  "), Some(s("{\"a\":1}")));
    assert_eq!(sse_delta_payload("data: [DONE]"), None);
    assert_eq!(sse_delta_payload(": ping"), None);
    let chunk = obj(vec![(
        "choices",
        JsonValue::Array(vec![obj(vec![("delta", obj(vec![("content", JsonValue::Str(s("tok")))]))])]),
    )]);
    assert_eq!(delta_content(&chunk), Some(s("tok")));
}

#[test]
fn message_blocks_split_code_fences() {
    let blocks = split_message_blocks("Intro\n```rust\nfn main() {}\n```\nOutro");
    assert_eq!(blocks.len(), 3);
    match &blocks[0] {
        MessageBlock::Paragraph(t) => assert_eq!(t, "Intro"),
        _ => panic!("paragraph expected"),
    }
    match &blocks[1] {
        MessageBlock::Code { language, code } => {
            assert_eq!(language.as_deref(), Some("rust"));
            assert_eq!(code, "fn main() {}");
        },
        _ => panic!("code expected"),
    }
    let unterminated = split_message_blocks("```\nlet x = 1;\n");
    match &unterminated[0] {
        MessageBlock::Code { language, code } => {
            assert_eq!(language, &None);
            assert_eq!(code, "let x = 1;");
        },
        _ => panic!("code expected"),
    }
    let blank = split_message_blocks("   ");
    match &blank[0] {
        MessageBlock::Paragraph(t) => assert_eq!(t, "   "),
        _ => panic!("paragraph expected"),
    }
}

#[test]
fn error_notices_are_recognised() {
    assert!(is_error_notice("Login FAILED (401)"));
    assert!(is_error_notice("Email and password are required."));
    assert!(!is_error_notice("Logged in as a@b.c"));
}

#[test]
fn title_request_needs_key_model_and_endpoint() {
    assert_eq!(title_request_check("k", "m", "https://e"), Ok(()));
    assert_eq!(title_request_check("k", " ", "https://e"), Err(s("AUVRO endpoint/model/api key is not configured.")));
}

#[test]
fn streamed_lines_are_appended_in_order() {
    let mut out = String::new();
    assert_eq!(read_stream_line(&mut out, b"data: {\"choices\":[{\"delta\":{\"content\":\"Hel\"}}]}\r\n"), Ok(false));
    assert_eq!(read_stream_line(&mut out, b": keep-alive\n"), Ok(false));
    assert_eq!(read_stream_line(&mut out, b"data: {}\n"), Ok(false));
    assert_eq!(read_stream_line(&mut out, b"data: {\"choices\":[{\"delta\":{\"content\":\"lo\"}}]}\n"), Ok(false));
    assert_eq!(out, "Hello");
    assert_eq!(read_stream_line(&mut out, b"data: [DONE]\n"), Ok(true));
    assert_eq!(out, "Hello");
    let r = read_stream_line(&mut out, b"data: {broken\n");
    assert!(r.unwrap_err().starts_with("Could not parse streaming chunk: "));
    assert_eq!(out, "Hello");
}

#[test]
fn chunk_payloads_are_parsed_or_skipped() {
    assert_eq!(extract_chunk_text(b"PROCESSING"), Ok(s("")));
    assert_eq!(extract_chunk_text(b""), Ok(s("")));
    assert_eq!(extract_chunk_text(b"{\"text\":\"plain\"}"), Ok(s("plain")));
    assert_eq!(
        extract_chunk_text(b"{\"choices\":[{\"message\":{\"content\":\"Whole\"}}]}"),
        Ok(s("Whole"))
    );
    assert_eq!(extract_chunk_text(b"[1,2]"), Ok(s("")));
    let err = extract_chunk_text(b"{not json").unwrap_err();
    assert!(err.starts_with("Could not parse streaming chunk: "));
    assert!(err.len() > "Could not parse streaming chunk: ".len());
}

#[test]
fn sse_lines_give_their_delta_content() {
    assert_eq!(
        extract_sse_delta_content("data: {\"choices\":[{\"delta\":{\"content\":\"Hi\"}}]}"),
        Ok(Some(s("Hi")))
    );
    assert_eq!(extract_sse_delta_content("  data:{\"choices\":[{\"delta\":{}}]}  "), Ok(None));
    assert_eq!(extract_sse_delta_content(": ping"), Ok(None));
    assert_eq!(extract_sse_delta_content("data: [DONE]"), Ok(None));
    assert_eq!(extract_sse_delta_content("event: message"), Ok(None));
    assert_eq!(extract_sse_delta_content(""), Ok(None));
    let err = extract_sse_delta_content("data: {bad").unwrap_err();
    assert!(err.starts_with("Could not parse streaming chunk: "));
}

#[test]
fn title_replies_give_a_title_or_an_error() {
    assert_eq!(
        title_from_reply("{\"choices\":[{\"message\":{\"content\":\"  \\\"Trip   plans\\\" \"}}]}"),
        Ok(s("Trip plans"))
    );
    assert_eq!(
        title_from_reply("{\"choices\":[{\"message\":{}}]}"),
        Err(s("Title response did not include text content."))
    );
    assert_eq!(
        title_from_reply("{\"choices\":[{\"message\":{\"content\":\" '' \"}}]}"),
        Err(s("Generated title is empty."))
    );
    let err = title_from_reply("not json").unwrap_err();
    assert!(err.starts_with("Failed to parse title response: "));
}

#[test]
fn cancellation_check_stops_only_cancelled_requests() {
    assert_eq!(cancel_check(false), Ok(()));
    assert_eq!(cancel_check(true), Err(s("Request cancelled")));
}

#[test]
fn more_budget_keeps_every_turn_of_less() {
    let conversation = vec![s("You: first question"), s("Auvro: first answer")];
    let small = build_chat_messages("sys", "q", &conversation, 41);
    let large = build_chat_messages("sys", "q", &conversation, 4096);
    assert!(small.len() <= large.len());
    let kept: Vec<String> = small[1..small.len() - 1].iter().map(|m| m.content.clone()).collect();
    let mid = &large[1..large.len() - 1];
    let tail: Vec<String> = mid[mid.len() - kept.len()..].iter().map(|m| m.content.clone()).collect();
    assert_eq!(kept, vec![s("first answer")]);
    assert_eq!(tail, kept);
}

#[test]
fn json_documents_are_read_into_the_tree() {
    match auvro::json::parse_json_document("{\"a\": [1, true, null], \"b\": \"x\"}") {
        Ok(JsonValue::Object(members)) => {
            assert_eq!(members.len(), 2);
            assert_eq!(members[0].0, "a");
            match &members[0].1 {
                JsonValue::Array(items) => {
                    assert_eq!(items.len(), 3);
                    assert!(matches!(&items[0], JsonValue::Number(n) if n.text == "1" && n.as_u64 == Some(1)));
                    assert!(matches!(items[1], JsonValue::Bool(true)));
                    assert!(matches!(items[2], JsonValue::Null));
                }
                _ => panic!("expected an array"),
            }
            assert!(matches!(&members[1].1, JsonValue::Str(t) if t == "x"));
        }
        _ => panic!("expected an object"),
    }
    assert!(auvro::json::parse_json_document("{").is_err());
}
