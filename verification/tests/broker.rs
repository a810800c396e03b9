use chat_broker::broker::RequestError;
use chat_broker::broker::Session;
use chat_broker::turns::Role;

const PREAMBLE: &str =
    "Be precise and concise. Write your messages in markdown. Write codeblocks in markdown.";

#[test]
fn reply_recorded() {
    let mut s = Session::new();
    let payload = s.begin_request("model-x", "hello", false);
    assert!(payload.contains("\"model\":\"model-x\""));
    let body = "{\"choices\":[{\"message\":{\"content\":\"hi there\"}}]}".to_string();
    let r = s.finish_request(Ok(body));
    assert_eq!(r.unwrap(), "hi there");
    assert_eq!(s.turn_count(), 3);
    assert_eq!(s.turn_at(0).role, Role::System);
    assert_eq!(s.turn_at(0).content, PREAMBLE);
    assert_eq!(s.turn_at(1).role, Role::User);
    assert_eq!(s.turn_at(1).content, "hello");
    assert_eq!(s.turn_at(2).role, Role::Assistant);
    assert_eq!(s.turn_at(2).content, "hi there");
}

#[test]
fn malformed_body_is_decode_error() {
    let mut s = Session::new();
    s.begin_request("model-x", "hello", false);
    let r = s.finish_request(Ok("it was not json".to_string()));
    assert!(matches!(r, Err(RequestError::Decode)));
    assert_eq!(s.turn_count(), 2);
    assert_eq!(s.turn_at(1).role, Role::User);
    assert_eq!(s.turn_at(1).content, "hello");
}

#[test]
fn empty_choices_degrade_to_empty_reply() {
    let mut s = Session::new();
    s.begin_request("model-x", "hello", false);
    let r = s.finish_request(Ok("{\"choices\":[]}".to_string()));
    assert_eq!(r.unwrap(), "");
    assert_eq!(s.turn_count(), 3);
    assert_eq!(s.turn_at(2).role, Role::Assistant);
    assert_eq!(s.turn_at(2).content, "");
}

#[test]
fn send_failure_keeps_user_turn() {
    let mut s = Session::new();
    s.begin_request("model-x", "hello", false);
    let r = s.finish_request(Err("connection refused".to_string()));
    match r {
        Err(e) => assert_eq!(e.message(), "connection refused"),
        Ok(_) => panic!("a send failure must surface as an error"),
    }
    assert_eq!(s.turn_count(), 2);
    assert_eq!(s.turn_at(1).role, Role::User);
}

#[test]
fn preamble_stays_first_and_unique() {
    let mut s = Session::new();
    for i in 0..4 {
        let input = format!("question {}", i);
        s.begin_request("m", input.as_str(), false);
        let r = s.finish_request(Ok(
            "{\"choices\":[{\"message\":{\"content\":\"answer\"}}]}".to_string(),
        ));
        assert!(r.is_ok());
    }
    assert_eq!(s.turn_count(), 9);
    assert_eq!(s.turn_at(0).role, Role::System);
    assert_eq!(s.turn_at(0).content, PREAMBLE);
    for i in 1..9 {
        assert!(s.turn_at(i).role != Role::System);
    }
}

#[test]
fn log_is_append_only_without_clear() {
    let mut s = Session::new();
    s.begin_request("m", "first", false);
    s.finish_request(Ok("{\"choices\":[{\"message\":{\"content\":\"one\"}}]}".to_string()))
        .unwrap();
    let before: Vec<(Role, String)> =
        (0..s.turn_count()).map(|i| (s.turn_at(i).role, s.turn_at(i).content.clone())).collect();
    s.begin_request("m", "second", false);
    s.finish_request(Err("down".to_string())).unwrap_err();
    assert!(s.turn_count() >= before.len());
    for (i, (role, content)) in before.iter().enumerate() {
        assert_eq!(s.turn_at(i).role, *role);
        assert_eq!(&s.turn_at(i).content, content);
    }
}

#[test]
fn clear_resets_to_preamble_and_new_input() {
    let mut s = Session::new();
    s.begin_request("m", "old topic", false);
    s.finish_request(Ok("{\"choices\":[{\"message\":{\"content\":\"reply\"}}]}".to_string()))
        .unwrap();
    s.begin_request("m", "new topic", true);
    assert_eq!(s.turn_count(), 2);
    assert_eq!(s.turn_at(0).role, Role::System);
    assert_eq!(s.turn_at(0).content, PREAMBLE);
    assert_eq!(s.turn_at(1).role, Role::User);
    assert_eq!(s.turn_at(1).content, "new topic");
}

#[test]
fn payload_text_is_exact() {
    let mut s = Session::new();
    let payload = s.begin_request("m", "hi", false);
    let expected = String::from("{\"model\":\"m\",\"messages\":[{\"role\":\"system\",\"content\":\"")
        + PREAMBLE
        + "\"},{\"role\":\"user\",\"content\":\"hi\"}],\"max_tokens\":0,\"temperature\":1,\"top_p\":1,\"top_k\":0,\"stream\":false,\"presence_penalty\":0,\"frequency_penalty\":1}";
    assert_eq!(payload, expected);
}

#[test]
fn payload_escapes_content() {
    let mut s = Session::new();
    let payload = s.begin_request("m", "a\"b\\c\nd", false);
    assert!(payload.contains("{\"role\":\"user\",\"content\":\"a\\\"b\\\\c\\u000ad\"}"));
}

#[test]
fn missing_content_path_variants() {
    let mut s = Session::new();
    s.begin_request("m", "q", false);
    let r = s.finish_request(Ok("{\"choices\":[{\"message\":{\"content\":7}}]}".to_string()));
    assert_eq!(r.unwrap(), "");
    let r2 = s.finish_request(Ok("{}".to_string()));
    assert_eq!(r2.unwrap(), "");
    assert_eq!(s.turn_count(), 4);
}

#[test]
fn empty_input_and_model_are_forwarded() {
    let mut s = Session::new();
    let payload = s.begin_request("", "", false);
    assert!(payload.starts_with("{\"model\":\"\","));
    assert!(payload.contains("{\"role\":\"user\",\"content\":\"\"}"));
}

#[test]
fn unicode_content_passes_through() {
    let mut s = Session::new();
    let payload = s.begin_request("m", "héllo → ünïcode", false);
    assert!(payload.contains("{\"role\":\"user\",\"content\":\"héllo → ünïcode\"}"));
}
