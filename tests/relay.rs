use gemini_relay::delivery::{plan_delivery, Delivery, MESSAGE_LIMIT};
use gemini_relay::relay::{Action, Event, Exchange, InboundMessage, Model, Stage};
use gemini_relay::response::{extract_text, respond_to_candidates, respond_to_raw, Failure};

const CAPTION: &str = "My response is too long for Discord, so I'm sending it to you as a file:";

fn json_string(s: &str) -> String {
    let mut out = String::from("\"");
    for c in s.chars() {
        match c {
            '"' => out.push_str("\\\""),
            '\\' => out.push_str("\\\\"),
            '\n' => out.push_str("\\n"),
            _ => out.push(c),
        }
    }
    out.push('"');
    out
}

fn candidate(parts: &[&str]) -> String {
    let parts: Vec<String> = parts
        .iter()
        .map(|p| format!("{{\"text\":{}}}", json_string(p)))
        .collect();
    format!(
        "{{\"content\":{{\"parts\":[{}],\"role\":\"model\"}},\"finishReason\":\"STOP\",\"avgLogprobs\":-0.25}}",
        parts.join(",")
    )
}

fn raw_reply(candidates: &[String]) -> String {
    let body = format!(
        "{{\"candidates\":[{}],\"usageMetadata\":{{\"promptTokenCount\":1,\"candidatesTokenCount\":2,\"totalTokenCount\":3}},\"modelVersion\":\"gemini-1.5-pro-002\"}}",
        candidates.join(",")
    );
    format!(
        "HTTP/1.1 200 OK\r\nContent-Type: application/json; charset=UTF-8\r\nContent-Length: {}\r\n\r\n{}",
        body.len(),
        body
    )
}

fn message(bot: bool, channel: u64, text: &str) -> InboundMessage {
    InboundMessage { author_is_bot: bot, channel_id: channel, content: text.to_string() }
}

fn generating(text: &str) -> Exchange {
    let mut ex = Exchange::new(String::new());
    assert!(matches!(ex.step(Event::Received(message(false, 7, text))), Action::StartTyping { channel: 7 }));
    assert!(matches!(ex.step(Event::TypingStarted), Action::Generate(_)));
    ex
}

#[test]
fn short_reply_is_sent_inline() {
    let mut ex = generating("hello");
    match ex.step(Event::Generated(raw_reply(&[candidate(&["hi there"])]))) {
        Action::Send { channel, delivery: Delivery::Inline(t) } => {
            assert_eq!(channel, 7);
            assert_eq!(t, "hi there");
        }
        _ => panic!("expected an inline send"),
    }
    assert_eq!(ex.stage, Stage::Delivering);
    assert!(matches!(ex.step(Event::Delivered), Action::StopTyping { channel: 7, failure: None }));
    assert_eq!(ex.stage, Stage::Done);
}

#[test]
fn long_reply_is_sent_as_file() {
    let text = "x".repeat(2500);
    let mut ex = generating("anything at all");
    match ex.step(Event::Generated(raw_reply(&[candidate(&[&text])]))) {
        Action::Send { channel, delivery: Delivery::File(f) } => {
            assert_eq!(channel, 7);
            assert_eq!(f.data.len(), 2500);
            assert_eq!(f.data, text.as_bytes().to_vec());
            assert_eq!(f.filename, "response.txt");
            assert_eq!(f.caption, CAPTION);
        }
        _ => panic!("expected a file send"),
    }
}

#[test]
fn bot_message_gets_nothing() {
    let mut ex = Exchange::new(String::new());
    assert!(matches!(ex.step(Event::Received(message(true, 3, "hello"))), Action::Nothing));
    assert_eq!(ex.stage, Stage::Done);
    let later = vec![
        Event::TypingStarted,
        Event::Generated(raw_reply(&[candidate(&["hi"])])),
        Event::GenerationFailed,
        Event::Delivered,
        Event::DeliveryFailed,
        Event::Received(message(false, 3, "hello")),
    ];
    for e in later {
        assert!(matches!(ex.step(e), Action::Nothing));
    }
    assert_eq!(ex.stage, Stage::Done);
}

#[test]
fn empty_candidates_release_typing_without_reply() {
    let mut ex = generating("hello");
    match ex.step(Event::Generated(raw_reply(&[]))) {
        Action::StopTyping { channel, failure } => {
            assert_eq!(channel, 7);
            assert_eq!(failure, Some(Failure::MissingContent));
        }
        _ => panic!("expected the indicator to be released"),
    }
    assert_eq!(ex.stage, Stage::Done);
    assert!(matches!(ex.step(Event::Delivered), Action::Nothing));
}

#[test]
fn candidate_without_parts_is_missing_content() {
    assert!(matches!(respond_to_raw(&raw_reply(&[candidate(&[])])), Err(Failure::MissingContent)));
}

#[test]
fn request_carries_text_verbatim() {
    let mut ex = Exchange::new("be brief".to_string());
    let text = "  Wie geht's?\nline two \u{1F600} ";
    assert!(matches!(ex.step(Event::Received(message(false, 11, text))), Action::StartTyping { channel: 11 }));
    assert_eq!(ex.stage, Stage::Typing);
    match ex.step(Event::TypingStarted) {
        Action::Generate(r) => {
            assert_eq!(r.input_text, text);
            assert_eq!(r.instruction, "be brief");
            assert_eq!(r.model, Model::Gemini15Pro002);
            assert!(!r.remember);
        }
        _ => panic!("expected a request"),
    }
    assert_eq!(ex.stage, Stage::Generating);
}

#[test]
fn out_of_place_events_are_ignored() {
    let mut ex = Exchange::new(String::new());
    assert!(matches!(ex.step(Event::TypingStarted), Action::Nothing));
    assert!(matches!(ex.step(Event::Delivered), Action::Nothing));
    assert_eq!(ex.stage, Stage::Idle);
    assert!(matches!(ex.step(Event::Received(message(false, 1, "a"))), Action::StartTyping { channel: 1 }));
    assert!(matches!(ex.step(Event::Received(message(false, 2, "b"))), Action::Nothing));
    assert!(matches!(ex.step(Event::GenerationFailed), Action::Nothing));
    assert_eq!(ex.stage, Stage::Typing);
    assert_eq!(ex.channel, 1);
}

#[test]
fn generation_failure_releases_typing() {
    let mut ex = generating("hello");
    assert!(matches!(
        ex.step(Event::GenerationFailed),
        Action::StopTyping { channel: 7, failure: Some(Failure::Generation) }
    ));
    assert_eq!(ex.stage, Stage::Done);
}

#[test]
fn delivery_failure_releases_typing() {
    let mut ex = generating("hello");
    assert!(matches!(ex.step(Event::Generated(raw_reply(&[candidate(&["hi"])]))), Action::Send { .. }));
    assert!(matches!(
        ex.step(Event::DeliveryFailed),
        Action::StopTyping { channel: 7, failure: Some(Failure::Delivery) }
    ));
    assert_eq!(ex.stage, Stage::Done);
}

#[test]
fn malformed_reply_is_a_decode_failure() {
    let mut ex = generating("hello");
    assert!(matches!(
        ex.step(Event::Generated("not an http response".to_string())),
        Action::StopTyping { channel: 7, failure: Some(Failure::Decode) }
    ));
}

#[test]
fn reply_with_bad_json_is_a_decode_failure() {
    let raw = "HTTP/1.1 200 OK\r\nContent-Type: application/json\r\n\r\n{\"candidates\": 5}";
    assert!(matches!(respond_to_raw(raw), Err(Failure::Decode)));
}

#[test]
fn reply_cut_short_is_a_decode_failure() {
    assert!(matches!(respond_to_raw("HTTP/1.1 200 OK\r\nContent-Type: appl"), Err(Failure::Decode)));
    assert!(matches!(respond_to_raw(""), Err(Failure::Decode)));
}

#[test]
fn chunked_reply_is_decoded() {
    let body = raw_reply(&[candidate(&["chunked hi"])]);
    let json = body.split("\r\n\r\n").nth(1).unwrap().to_string();
    let raw = format!(
        "HTTP/1.1 200 OK\r\nTransfer-Encoding: chunked\r\n\r\n{:x}\r\n{}\r\n0\r\n\r\n",
        json.len(),
        json
    );
    match respond_to_raw(&raw) {
        Ok(Delivery::Inline(t)) => assert_eq!(t, "chunked hi"),
        _ => panic!("expected an inline reply"),
    }
}

#[test]
fn only_first_part_of_first_candidate_is_used() {
    let raw = raw_reply(&[candidate(&["first", "second"]), candidate(&["other"])]);
    match respond_to_raw(&raw) {
        Ok(Delivery::Inline(t)) => assert_eq!(t, "first"),
        _ => panic!("expected an inline reply"),
    }
}

#[test]
fn extract_text_takes_first_part() {
    let c = vec![vec!["a".to_string(), "b".to_string()], vec!["c".to_string()]];
    assert_eq!(extract_text(&c), Ok("a".to_string()));
    assert_eq!(extract_text(&vec![]), Err(Failure::MissingContent));
    assert_eq!(extract_text(&vec![vec![], vec!["c".to_string()]]), Err(Failure::MissingContent));
}

#[test]
fn respond_to_candidates_plans_delivery() {
    assert!(matches!(respond_to_candidates(&vec![]), Err(Failure::MissingContent)));
    match respond_to_candidates(&vec![vec!["hi there".to_string()]]) {
        Ok(Delivery::Inline(t)) => assert_eq!(t, "hi there"),
        _ => panic!("expected an inline reply"),
    }
}

#[test]
fn limit_is_inclusive() {
    assert_eq!(MESSAGE_LIMIT, 2000);
    match plan_delivery("y".repeat(2000)) {
        Delivery::Inline(t) => assert_eq!(t.len(), 2000),
        _ => panic!("2000 bytes fit in one message"),
    }
    match plan_delivery("y".repeat(2001)) {
        Delivery::File(f) => assert_eq!(f.data.len(), 2001),
        _ => panic!("2001 bytes do not fit"),
    }
}

#[test]
fn limit_counts_bytes() {
    let fits = "\u{e9}".repeat(1000);
    assert!(matches!(plan_delivery(fits), Delivery::Inline(_)));
    let over = "\u{e9}".repeat(1001);
    match plan_delivery(over.clone()) {
        Delivery::File(f) => {
            assert_eq!(f.data.len(), 2002);
            assert_eq!(f.data, over.into_bytes());
        }
        _ => panic!("2002 bytes do not fit"),
    }
}

#[test]
fn empty_reply_is_sent_inline() {
    match plan_delivery(String::new()) {
        Delivery::Inline(t) => assert!(t.is_empty()),
        _ => panic!("an empty text fits"),
    }
}
