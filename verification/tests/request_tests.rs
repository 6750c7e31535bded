use chat_gpt_line::g_bot::{g_bot, join_question};
use chat_gpt_line::g_config::{bot_config, config};
use chat_gpt_line::gpt_request::{gpt_request, role_text, Role};
use chat_gpt_line::history::QA;
use chat_gpt_line::request_json::{ChatCompletion, ChatCompletionChunk, Choice, CompletionChoice, Delta, Recv_Message, Usage};

fn qa(q: &str, a: &str) -> QA {
    QA { qustion: q.to_string(), anwser: a.to_string() }
}

fn settings() -> config {
    let mut c = config::default();
    c.token = "test-key".to_string();
    c.endpoint = "https://example.invalid/chat".to_string();
    c.module = "gpt-3.5-turbo".to_string();
    c.stream = true;
    c.memory = 1;
    c.view_editor = String::new();
    c.system_prompt = "be brief".to_string();
    c.http_proxy = "http://proxy:8080".to_string();
    c
}

#[test]
fn builder_sets_one_field_each() {
    let mut r = gpt_request::new();
    r.add_token("t".to_string())
        .set_endpoint("e".to_string())
        .set_model_name("m".to_string())
        .set_qustion("q".to_string())
        .set_system_prompt("s".to_string())
        .add_http_proxy("hp".to_string())
        .add_https_proxy("hsp".to_string())
        .enable_stream(true)
        .add_QA_histore(vec![qa("a", "b")])
        .add_QA_histore(vec![qa("c", "d")]);
    assert_eq!(r.token, "t");
    assert_eq!(r.endpoint, "e");
    assert_eq!(r.model, "m");
    assert_eq!(r.question, "q");
    assert_eq!(r.system_prompt, "s");
    assert_eq!(r.http_proxy, "hp");
    assert_eq!(r.https_proxy, "hsp");
    assert!(r.stream);
    assert_eq!(r.anwser, "");
    assert_eq!(r.qa.len(), 2);
    assert_eq!(r.qa[1].qustion, "c");
    r.enable_stream(false);
    assert!(!r.stream);
}

#[test]
fn body_lists_the_conversation() {
    let mut r = gpt_request::new();
    r.set_system_prompt("sys".to_string())
        .add_QA_histore(vec![qa("q1", "a1"), qa("q2", "a2")])
        .set_qustion("now".to_string())
        .set_model_name("m".to_string())
        .enable_stream(true);
    let body = r.request_body();
    assert_eq!(body.model, "m");
    assert!(body.stream);
    let got: Vec<(String, String)> =
        body.messages.iter().map(|m| (m.role.clone(), m.content.clone())).collect();
    let want: Vec<(String, String)> = vec![
        ("system", "sys"),
        ("user", "q1"),
        ("assistant", "a1"),
        ("user", "q2"),
        ("assistant", "a2"),
        ("user", "now"),
    ]
    .into_iter()
    .map(|(a, b)| (a.to_string(), b.to_string()))
    .collect();
    assert_eq!(got, want);
}

#[test]
fn empty_request_body() {
    let body = gpt_request::new().request_body();
    assert_eq!(body.messages.len(), 2);
    assert_eq!(body.messages[0].role, "system");
    assert_eq!(body.messages[0].content, "");
    assert_eq!(body.messages[1].role, "user");
    assert!(!body.stream);
}

#[test]
fn role_names() {
    assert_eq!(role_text(Role::System), "system");
    assert_eq!(role_text(Role::User), "user");
    assert_eq!(role_text(Role::Assistant), "assistant");
}

#[test]
fn bot_request_follows_the_settings() {
    let bot = g_bot::new(settings());
    let r = bot.request_for(Some(vec![qa("old", "ans")]), "new question".to_string());
    assert_eq!(r.token, "test-key");
    assert_eq!(r.endpoint, "https://example.invalid/chat");
    assert_eq!(r.model, "gpt-3.5-turbo");
    assert_eq!(r.system_prompt, "be brief");
    assert_eq!(r.http_proxy, "http://proxy:8080");
    assert_eq!(r.https_proxy, "");
    assert!(r.stream);
    assert_eq!(r.question, "new question");
    assert_eq!(r.qa.len(), 1);
    let r = bot.request_for(None, "q".to_string());
    assert!(r.qa.is_empty());
    let mut quiet = settings();
    quiet.stream = false;
    assert!(!g_bot::new(quiet).request_for(None, "q".to_string()).stream);
}

#[test]
fn settings_default_and_bot_config() {
    let c = config::default();
    assert_eq!(c.memory, 1);
    assert!(c.stream);
    assert_eq!(c.view_editor, "cat");
    assert_eq!(c.module, "gpt-3.5-turbo");
    assert_eq!(c.token, "");
    assert_eq!(c.http_proxy, "");
    assert_eq!(c.https_proxy, "");
    let b = bot_config::new(settings());
    assert_eq!(b.bot_config.memory, 1);
    assert_eq!(b.bot_config.module, "gpt-3.5-turbo");
}

#[test]
fn question_from_arguments() {
    let args: Vec<String> = vec!["chat-gpt-line".into(), "这是一个测试，".into(), "请回答测试成功!".into()];
    assert_eq!(join_question(&args), "这是一个测试，请回答测试成功!");
    assert_eq!(join_question(&vec!["prog".to_string()]), "");
    assert_eq!(join_question(&Vec::new()), "");
}

#[test]
fn first_contents() {
    let chunk = ChatCompletionChunk {
        id: "i".into(),
        object: "o".into(),
        created: 1,
        model: "m".into(),
        choices: vec![
            CompletionChoice { delta: Delta { content: "a".into() }, index: 0, finish_reason: None },
            CompletionChoice { delta: Delta { content: "b".into() }, index: 1, finish_reason: None },
        ],
    };
    assert_eq!(chunk.first_content(), Some("a".to_string()));
    let empty = ChatCompletionChunk { choices: Vec::new(), ..chunk };
    assert_eq!(empty.first_content(), None);
    let whole = ChatCompletion {
        id: "i".into(),
        object: "o".into(),
        created: 1,
        model: "m".into(),
        usage: Usage { prompt_tokens: 1, completion_tokens: 2, total_tokens: 3 },
        choices: vec![Choice {
            message: Recv_Message { role: "assistant".into(), content: "answer".into() },
            finish_reason: "stop".into(),
            index: 0,
        }],
    };
    assert_eq!(whole.first_content(), "answer");
}
