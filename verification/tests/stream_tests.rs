use chat_gpt_line::request_json::{ChatCompletionChunk, CompletionChoice, Delta};
use chat_gpt_line::stream::{event_text, handle_stream_line, stream_data_slover, stream_line_step, try_exp_fail_buf, LineOutcome};

/// Reads a chunk of a streamed reply from its JSON text.
fn parse_chunk(text: String) -> Option<ChatCompletionChunk> {
    let value: serde_json::Value = serde_json::from_str(&text).ok()?;
    let object = value.as_object()?;
    let mut choices = Vec::new();
    for choice in object.get("choices")?.as_array()? {
        let content = choice.get("delta")?.get("content")?.as_str()?.to_string();
        let index = choice.get("index")?.as_u64()? as usize;
        let finish_reason = match choice.get("finish_reason") {
            None | Some(serde_json::Value::Null) => None,
            Some(reason) => Some(reason.as_str()?.to_string()),
        };
        choices.push(CompletionChoice { delta: Delta { content }, index, finish_reason });
    }
    Some(ChatCompletionChunk {
        id: object.get("id")?.as_str()?.to_string(),
        object: object.get("object")?.as_str()?.to_string(),
        created: object.get("created")?.as_i64()?,
        model: object.get("model")?.as_str()?.to_string(),
        choices,
    })
}

fn chunk_line(content: &str) -> String {
    let mut v = serde_json::Value::Object(serde_json::Map::new());
    let choice = {
        let mut delta = serde_json::Map::new();
        delta.insert("content".to_string(), serde_json::Value::String(content.to_string()));
        let mut c = serde_json::Map::new();
        c.insert("delta".to_string(), serde_json::Value::Object(delta));
        c.insert("index".to_string(), serde_json::Value::from(0u64));
        c.insert("finish_reason".to_string(), serde_json::Value::Null);
        serde_json::Value::Object(c)
    };
    let o = v.as_object_mut().unwrap();
    o.insert("id".to_string(), serde_json::Value::String("chatcmpl-1".to_string()));
    o.insert("object".to_string(), serde_json::Value::String("chat.completion.chunk".to_string()));
    o.insert("created".to_string(), serde_json::Value::from(1680000000i64));
    o.insert("model".to_string(), serde_json::Value::String("gpt-35-turbo".to_string()));
    o.insert("choices".to_string(), serde_json::Value::Array(vec![choice]));
    format!("data: {}", v)
}

#[test]
fn clean_line_yields_its_text() {
    let mut d = stream_data_slover::new();
    d.add_byte_line(&chunk_line("Hello").into_bytes(), &parse_chunk);
    assert_eq!(d.pop_slover_line(), Some("Hello".to_string()));
    assert_eq!(d.pop_slover_line(), None);
}

#[test]
fn texts_come_out_oldest_first() {
    let mut d = stream_data_slover::new();
    d.add_byte_line(&chunk_line("one").into_bytes(), &parse_chunk);
    d.add_byte_line(&chunk_line("two").into_bytes(), &parse_chunk);
    d.add_byte_line(&chunk_line("three").into_bytes(), &parse_chunk);
    assert_eq!(d.pop_slover_line(), Some("one".to_string()));
    assert_eq!(d.pop_slover_line(), Some("two".to_string()));
    assert_eq!(d.pop_slover_line(), Some("three".to_string()));
    assert_eq!(d.pop_slover_line(), None);
}

#[test]
fn split_character_is_recovered() {
    let line = chunk_line("你好").into_bytes();
    let cut = line.iter().position(|b| *b >= 0x80).unwrap() + 1;
    let first = line[..cut].to_vec();
    let second = line[cut..].to_vec();
    assert!(String::from_utf8(first.clone()).is_err());
    assert!(String::from_utf8(second.clone()).is_err());
    let mut d = stream_data_slover::new();
    d.add_byte_line(&first, &parse_chunk);
    assert_eq!(d.pop_slover_line(), None);
    d.add_byte_line(&second, &parse_chunk);
    assert_eq!(d.pop_slover_line(), Some("你好".to_string()));
    // nothing stays pending: the next clean line comes out alone
    d.add_byte_line(&chunk_line("next").into_bytes(), &parse_chunk);
    assert_eq!(d.pop_slover_line(), Some("next".to_string()));
    assert_eq!(d.pop_slover_line(), None);
}

#[test]
fn chunk_without_choices_yields_nothing() {
    let mut d = stream_data_slover::new();
    let line = "data: {\"id\":\"a\",\"object\":\"o\",\"created\":1,\"model\":\"m\",\"choices\":[]}";
    d.add_byte_line(&line.as_bytes().to_vec(), &parse_chunk);
    assert_eq!(d.pop_slover_line(), None);
}

#[test]
fn blank_line_yields_nothing() {
    let mut d = stream_data_slover::new();
    d.add_byte_line(&Vec::new(), &parse_chunk);
    assert_eq!(d.pop_slover_line(), None);
    d.add_byte_line(&chunk_line("after").into_bytes(), &parse_chunk);
    assert_eq!(d.pop_slover_line(), Some("after".to_string()));
}

#[test]
fn try_conver_json_strips_every_marker() {
    let d = stream_data_slover::new();
    assert_eq!(d.try_conver_json(chunk_line("x"), &parse_chunk), Some("x".to_string()));
    assert_eq!(d.try_conver_json("data: [DONE]".to_string(), &parse_chunk), None);
    let seen = std::cell::RefCell::new(Vec::new());
    let record = |s: String| {
        seen.borrow_mut().push(s);
        None
    };
    assert_eq!(d.try_conver_json("data:adata:b".to_string(), &record), None);
    assert_eq!(seen.borrow().as_slice(), &["ab".to_string()]);
}

#[test]
fn event_text_hands_on_first_choice() {
    assert_eq!(event_text(chunk_line("first"), &parse_chunk), Some("first".to_string()));
    assert_eq!(event_text("not json".to_string(), &parse_chunk), None);
}

#[test]
fn stream_line_delivers_or_keeps() {
    let mut pending: Vec<u8> = vec![1, 2];
    match handle_stream_line(&mut pending, &chunk_line("hi").into_bytes(), &parse_chunk) {
        LineOutcome::Deliver(s) => assert_eq!(s, "hi"),
        LineOutcome::Kept => panic!("expected a text"),
    }
    assert!(pending.is_empty());
    let line = b"data: {\"partial\"".to_vec();
    assert!(matches!(handle_stream_line(&mut pending, &line, &parse_chunk), LineOutcome::Kept));
    assert_eq!(pending, line);
    let bad = vec![0xe4u8, 0xbd];
    assert!(matches!(handle_stream_line(&mut pending, &bad, &parse_chunk), LineOutcome::Kept));
    let mut expected = line.clone();
    expected.extend_from_slice(&bad);
    assert_eq!(pending, expected);
}

#[test]
fn fail_buffer_retry() {
    let body = chunk_line("late");
    let body = body.trim_start_matches("data: ").to_string();
    let mut pending = format!("{}\n", body).into_bytes();
    assert_eq!(try_exp_fail_buf(&mut pending, &parse_chunk), Some("late".to_string()));
    assert!(pending.is_empty());
    let mut pending = b"{\"id\":".to_vec();
    assert_eq!(try_exp_fail_buf(&mut pending, &parse_chunk), None);
    assert_eq!(pending, b"{\"id\":".to_vec());
    let mut invalid = vec![0xffu8];
    let seen = std::cell::RefCell::new(Vec::new());
    let record = |s: String| {
        seen.borrow_mut().push(s);
        None
    };
    assert_eq!(try_exp_fail_buf(&mut invalid, &record), None);
    assert_eq!(seen.borrow().as_slice(), &[String::new()]);
    assert_eq!(invalid, vec![0xffu8]);
}

#[test]
fn kept_bytes_wait_for_a_json_document() {
    // bytes that decode but do not yet form JSON after their marker stay pending
    let mut d = stream_data_slover::new();
    let line = chunk_line("joined");
    let (head, tail) = line.split_at(20);
    d.add_byte_line(&head.as_bytes().to_vec(), &parse_chunk);
    assert_eq!(d.pop_slover_line(), None);
    d.add_byte_line(&tail.as_bytes().to_vec(), &parse_chunk);
    assert_eq!(d.pop_slover_line(), Some("joined".to_string()));
}

#[test]
fn kept_bytes_that_are_json_but_no_chunk_are_dropped() {
    let mut d = stream_data_slover::new();
    d.add_byte_line(&vec![0xe4u8], &parse_chunk);
    d.add_byte_line(&"\u{0}".as_bytes().to_vec(), &parse_chunk);
    assert_eq!(d.pop_slover_line(), None);
    // "[1]" is JSON but no chunk: the kept bytes are dropped, the next line is alone
    let mut d = stream_data_slover::new();
    d.add_byte_line(&b"data: [1".to_vec(), &parse_chunk);
    d.add_byte_line(&b"]".to_vec(), &parse_chunk);
    d.add_byte_line(&chunk_line("clean").into_bytes(), &parse_chunk);
    assert_eq!(d.pop_slover_line(), Some("clean".to_string()));
    assert_eq!(d.pop_slover_line(), None);
}

#[test]
fn stream_step_delivers_or_retries() {
    let mut pending: Vec<u8> = Vec::new();
    assert_eq!(stream_line_step(&mut pending, &chunk_line("a").into_bytes(), &parse_chunk), Some("a".to_string()));
    assert!(pending.is_empty());
    // a blank line is kept, and the retry of the (blank) pending text yields nothing
    assert_eq!(stream_line_step(&mut pending, &Vec::new(), &parse_chunk), None);
    assert!(pending.is_empty());
    // a chunk cut in two without its marker is recovered on the retry
    let body = chunk_line("split");
    let body = body.trim_start_matches("data: ");
    let (head, tail) = body.split_at(10);
    assert_eq!(stream_line_step(&mut pending, &head.as_bytes().to_vec(), &parse_chunk), None);
    assert_eq!(pending, head.as_bytes().to_vec());
    assert_eq!(stream_line_step(&mut pending, &tail.as_bytes().to_vec(), &parse_chunk), Some("split".to_string()));
    assert!(pending.is_empty());
}

#[test]
fn leading_marker_changes_nothing() {
    let d = stream_data_slover::new();
    let body = chunk_line("same");
    let body = body.trim_start_matches("data: ").to_string();
    let plain = d.try_conver_json(body.clone(), &parse_chunk);
    assert_eq!(plain, Some("same".to_string()));
    assert_eq!(d.try_conver_json(format!("data:{}", body), &parse_chunk), plain);
    assert_eq!(d.try_conver_json(format!("data: {}", body), &parse_chunk), plain);
}
