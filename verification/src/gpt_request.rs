//! A chat-completion request: what it is sent with, and the body it sends.
use vstd::prelude::*;
use crate::history::QA;
use crate::request_json::{ChatMessage, Message};

verus! {

/// A chat-completion request being put together.
pub struct gpt_request {
    /// Where the request goes.
    pub endpoint: String,
    /// The key the request is authorised with.
    pub token: String,
    /// The question asked.
    pub question: String,
    /// The answer, once known.
    pub anwser: String,
    /// The proxy for plain HTTP, empty for none.
    pub http_proxy: String,
    /// The proxy for HTTPS, empty for none.
    pub https_proxy: String,
    /// Whether the answer is asked for as a stream.
    pub stream: bool,
    /// The model asked.
    pub model: String,
    /// The earlier exchanges sent along, oldest first.
    pub qa: Vec<QA>,
    /// The instructions that open the conversation.
    pub system_prompt: String,
}

/// Who speaks a message.
pub enum Role {
    System,
    User,
    Assistant,
}

/// The name of the system's role.
pub open spec fn system_role() -> Seq<char> {
    seq!['s', 'y', 's', 't', 'e', 'm']
}

/// The name of the user's role.
pub open spec fn user_role() -> Seq<char> {
    seq!['u', 's', 'e', 'r']
}

/// The name of the assistant's role.
pub open spec fn assistant_role() -> Seq<char> {
    seq!['a', 's', 's', 'i', 's', 't', 'a', 'n', 't']
}

/// The name of a role, as it is sent.
pub open spec fn role_name(role: Role) -> Seq<char> {
    match role {
        Role::System => system_role(),
        Role::User => user_role(),
        Role::Assistant => assistant_role(),
    }
}

/// The name of a role, as it is sent.
pub fn role_text(role: Role) -> (r: String)
    ensures
        r@ == role_name(role),
{
    match role {
        Role::System => {
            proof {
                reveal_strlit("system");
            }
            String::from_str("system")
        },
        Role::User => {
            proof {
                reveal_strlit("user");
            }
            String::from_str("user")
        },
        Role::Assistant => {
            proof {
                reveal_strlit("assistant");
            }
            String::from_str("assistant")
        },
    }
}

/// A message as its role and its content.
pub open spec fn message_view(m: Message) -> (Seq<char>, Seq<char>) {
    (m.role@, m.content@)
}

/// The messages of earlier exchanges: for each, oldest first, the user's
/// question and then the assistant's answer.
pub open spec fn turns(qa: Seq<QA>) -> Seq<(Seq<char>, Seq<char>)>
    decreases qa.len(),
{
    if qa.len() == 0 {
        Seq::empty()
    } else {
        turns(qa.drop_last()) + seq![
            (user_role(), qa.last().qustion@),
            (assistant_role(), qa.last().anwser@),
        ]
    }
}

/// The conversation sent: the instructions, the earlier exchanges, and the
/// question.
pub open spec fn conversation(system_prompt: Seq<char>, qa: Seq<QA>, question: Seq<char>) -> Seq<
    (Seq<char>, Seq<char>),
> {
    seq![(system_role(), system_prompt)] + turns(qa) + seq![(user_role(), question)]
}

/// The messages of earlier exchanges are two per exchange, in order: the
/// question of exchange `i` as the user's message at `2 * i`, its answer as
/// the assistant's message at `2 * i + 1`.
pub proof fn lemma_turns(qa: Seq<QA>)
    ensures
        turns(qa).len() == 2 * qa.len(),
        forall|i: int|
            0 <= i < qa.len() ==> #[trigger] turns(qa)[2 * i] == (user_role(), qa[i].qustion@)
                && turns(qa)[2 * i + 1] == (assistant_role(), qa[i].anwser@),
    decreases qa.len(),
{
    if qa.len() > 0 {
        lemma_turns(qa.drop_last());
        assert forall|i: int| 0 <= i < qa.len() implies #[trigger] turns(qa)[2 * i] == (
            user_role(),
            qa[i].qustion@,
        ) && turns(qa)[2 * i + 1] == (assistant_role(), qa[i].anwser@) by {
            if i < qa.len() - 1 {
                assert(qa.drop_last()[i] == qa[i]);
            }
        }
    }
}

/// The conversation sent opens with the instructions as the system's
/// message, ends with the question as the user's message, and holds in
/// between the earlier exchanges, each as the user's question followed by
/// the assistant's answer, oldest first: two messages per exchange, two more.
pub proof fn lemma_conversation_shape(system_prompt: Seq<char>, qa: Seq<QA>, question: Seq<char>)
    ensures
        conversation(system_prompt, qa, question).len() == 2 * qa.len() + 2,
        conversation(system_prompt, qa, question)[0] == (system_role(), system_prompt),
        conversation(system_prompt, qa, question).last() == (user_role(), question),
        forall|i: int|
            0 <= i < qa.len() ==> #[trigger] conversation(system_prompt, qa, question)[2 * i + 1]
                == (user_role(), qa[i].qustion@) && conversation(system_prompt, qa, question)[2 * i
                + 2] == (assistant_role(), qa[i].anwser@),
{
    lemma_turns(qa);
    let c = conversation(system_prompt, qa, question);
    assert forall|i: int| 0 <= i < qa.len() implies #[trigger] c[2 * i + 1] == (
        user_role(),
        qa[i].qustion@,
    ) && c[2 * i + 2] == (assistant_role(), qa[i].anwser@) by {
        assert(turns(qa)[2 * i] == (user_role(), qa[i].qustion@));
    }
}

/// Each setter changes its own field and keeps every other field of the
/// request as it was.
pub proof fn lemma_setters_change_one_field(q: gpt_request, s: String, b: bool)
    ensures
        q.with_endpoint(s).endpoint == s && q.with_endpoint(s).system_prompt == q.system_prompt
            && q.with_endpoint(s).token == q.token && q.with_endpoint(s).question == q.question
            && q.with_endpoint(s).anwser == q.anwser && q.with_endpoint(s).http_proxy
            == q.http_proxy && q.with_endpoint(s).https_proxy == q.https_proxy
            && q.with_endpoint(s).stream == q.stream && q.with_endpoint(s).model == q.model
            && q.with_endpoint(s).qa == q.qa,
        q.with_system_prompt(s).system_prompt == s && q.with_system_prompt(s).endpoint
            == q.endpoint && q.with_system_prompt(s).token == q.token
            && q.with_system_prompt(s).question == q.question && q.with_system_prompt(s).anwser
            == q.anwser && q.with_system_prompt(s).http_proxy == q.http_proxy
            && q.with_system_prompt(s).https_proxy == q.https_proxy
            && q.with_system_prompt(s).stream == q.stream && q.with_system_prompt(s).model
            == q.model && q.with_system_prompt(s).qa == q.qa,
        q.with_token(s).token == s && q.with_token(s).endpoint == q.endpoint
            && q.with_token(s).system_prompt == q.system_prompt && q.with_token(s).question
            == q.question && q.with_token(s).anwser == q.anwser && q.with_token(s).http_proxy
            == q.http_proxy && q.with_token(s).https_proxy == q.https_proxy
            && q.with_token(s).stream == q.stream && q.with_token(s).model == q.model
            && q.with_token(s).qa == q.qa,
        q.with_question(s).question == s && q.with_question(s).endpoint == q.endpoint
            && q.with_question(s).system_prompt == q.system_prompt && q.with_question(s).token
            == q.token && q.with_question(s).anwser == q.anwser && q.with_question(s).http_proxy
            == q.http_proxy && q.with_question(s).https_proxy == q.https_proxy
            && q.with_question(s).stream == q.stream && q.with_question(s).model == q.model
            && q.with_question(s).qa == q.qa,
        q.with_model(s).model == s && q.with_model(s).endpoint == q.endpoint
            && q.with_model(s).system_prompt == q.system_prompt && q.with_model(s).token
            == q.token && q.with_model(s).question == q.question && q.with_model(s).anwser
            == q.anwser && q.with_model(s).http_proxy == q.http_proxy
            && q.with_model(s).https_proxy == q.https_proxy && q.with_model(s).stream
            == q.stream && q.with_model(s).qa == q.qa,
        q.with_http_proxy(s).http_proxy == s && q.with_http_proxy(s).endpoint == q.endpoint
            && q.with_http_proxy(s).system_prompt == q.system_prompt
            && q.with_http_proxy(s).token == q.token && q.with_http_proxy(s).question
            == q.question && q.with_http_proxy(s).anwser == q.anwser
            && q.with_http_proxy(s).https_proxy == q.https_proxy && q.with_http_proxy(s).stream
            == q.stream && q.with_http_proxy(s).model == q.model && q.with_http_proxy(s).qa
            == q.qa,
        q.with_https_proxy(s).https_proxy == s && q.with_https_proxy(s).endpoint == q.endpoint
            && q.with_https_proxy(s).system_prompt == q.system_prompt
            && q.with_https_proxy(s).token == q.token && q.with_https_proxy(s).question
            == q.question && q.with_https_proxy(s).anwser == q.anwser
            && q.with_https_proxy(s).http_proxy == q.http_proxy && q.with_https_proxy(s).stream
            == q.stream && q.with_https_proxy(s).model == q.model && q.with_https_proxy(s).qa
            == q.qa,
        q.with_stream(b).stream == b && q.with_stream(b).endpoint == q.endpoint
            && q.with_stream(b).system_prompt == q.system_prompt && q.with_stream(b).token
            == q.token && q.with_stream(b).question == q.question && q.with_stream(b).anwser
            == q.anwser && q.with_stream(b).http_proxy == q.http_proxy
            && q.with_stream(b).https_proxy == q.https_proxy && q.with_stream(b).model
            == q.model && q.with_stream(b).qa == q.qa,
{
}

impl gpt_request {
    /// The request with `token` as its key.
    pub open spec fn with_token(self, token: String) -> Self {
        gpt_request { token, ..self }
    }

    /// The request with `proxy` as its HTTP proxy.
    pub open spec fn with_http_proxy(self, proxy: String) -> Self {
        gpt_request { http_proxy: proxy, ..self }
    }

    /// The request with `proxy` as its HTTPS proxy.
    pub open spec fn with_https_proxy(self, proxy: String) -> Self {
        gpt_request { https_proxy: proxy, ..self }
    }

    /// The request with `stream` as its stream setting.
    pub open spec fn with_stream(self, stream: bool) -> Self {
        gpt_request { stream, ..self }
    }

    /// The request with `model` as its model.
    pub open spec fn with_model(self, model: String) -> Self {
        gpt_request { model, ..self }
    }

    /// The request with `question` as its question.
    pub open spec fn with_question(self, question: String) -> Self {
        gpt_request { question, ..self }
    }

    /// The request with `prompt` as its opening instructions.
    pub open spec fn with_system_prompt(self, prompt: String) -> Self {
        gpt_request { system_prompt: prompt, ..self }
    }

    /// The request with `endpoint` as its destination.
    pub open spec fn with_endpoint(self, endpoint: String) -> Self {
        gpt_request { endpoint, ..self }
    }

    /// A request with every setting empty and no stream.
    pub fn new() -> (r: Self)
        ensures
            r.endpoint@ == Seq::<char>::empty(),
            r.token@ == Seq::<char>::empty(),
            r.question@ == Seq::<char>::empty(),
            r.anwser@ == Seq::<char>::empty(),
            r.http_proxy@ == Seq::<char>::empty(),
            r.https_proxy@ == Seq::<char>::empty(),
            !r.stream,
            r.model@ == Seq::<char>::empty(),
            r.qa@ == Seq::<QA>::empty(),
            r.system_prompt@ == Seq::<char>::empty(),
    {
        gpt_request {
            endpoint: String::new(),
            token: String::new(),
            question: String::new(),
            anwser: String::new(),
            http_proxy: String::new(),
            https_proxy: String::new(),
            stream: false,
            model: String::new(),
            qa: Vec::new(),
            system_prompt: String::new(),
        }
    }

    /// Sets the key.
    pub fn add_token(&mut self, token: String) -> (r: &mut gpt_request)
        ensures
            *r == old(self).with_token(token),
            *final(self) == *final(r),
    {
        self.token = token;
        self
    }

    /// Sets the HTTP proxy.
    pub fn add_http_proxy(&mut self, proxy: String) -> (r: &mut gpt_request)
        ensures
            *r == old(self).with_http_proxy(proxy),
            *final(self) == *final(r),
    {
        self.http_proxy = proxy;
        self
    }

    /// Sets the HTTPS proxy.
    pub fn add_https_proxy(&mut self, proxy: String) -> (r: &mut gpt_request)
        ensures
            *r == old(self).with_https_proxy(proxy),
            *final(self) == *final(r),
    {
        self.https_proxy = proxy;
        self
    }

    /// Adds earlier exchanges after those already there.
    pub fn add_QA_histore(&mut self, qa: Vec<QA>) -> (r: &mut gpt_request)
        ensures
            r.qa@ == old(self).qa@ + qa@,
            r.endpoint == old(self).endpoint,
            r.token == old(self).token,
            r.question == old(self).question,
            r.anwser == old(self).anwser,
            r.http_proxy == old(self).http_proxy,
            r.https_proxy == old(self).https_proxy,
            r.stream == old(self).stream,
            r.model == old(self).model,
            r.system_prompt == old(self).system_prompt,
            *final(self) == *final(r),
    {
        let mut qa = qa;
        self.qa.append(&mut qa);
        self
    }

    /// Sets whether the answer is asked for as a stream.
    pub fn enable_stream(&mut self, bstream: bool) -> (r: &mut gpt_request)
        ensures
            *r == old(self).with_stream(bstream),
            *final(self) == *final(r),
    {
        self.stream = bstream;
        self
    }

    /// Sets the model.
    pub fn set_model_name(&mut self, model: String) -> (r: &mut gpt_request)
        ensures
            *r == old(self).with_model(model),
            *final(self) == *final(r),
    {
        self.model = model;
        self
    }

    /// Sets the question.
    pub fn set_qustion(&mut self, qustion: String) -> (r: &mut gpt_request)
        ensures
            *r == old(self).with_question(qustion),
            *final(self) == *final(r),
    {
        self.question = qustion;
        self
    }

    /// Sets the instructions that open the conversation.
    pub fn set_system_prompt(&mut self, system_prompt: String) -> (r: &mut gpt_request)
        ensures
            *r == old(self).with_system_prompt(system_prompt),
            *final(self) == *final(r),
    {
        self.system_prompt = system_prompt;
        self
    }

    /// Sets where the request goes.
    pub fn set_endpoint(&mut self, endpoint: String) -> (r: &mut gpt_request)
        ensures
            *r == old(self).with_endpoint(endpoint),
            *final(self) == *final(r),
    {
        self.endpoint = endpoint;
        self
    }

    /// The body to send: the request's model and stream setting, and the
    /// conversation: the opening instructions as the system's message, each
    /// earlier exchange as the user's question and the assistant's answer,
    /// oldest first, and last the question as the user's message.
    pub fn request_body(&self) -> (r: ChatMessage)
        ensures
            r.model == self.model,
            r.stream == self.stream,
            r.messages@.map_values(|m: Message| message_view(m)) == conversation(
                self.system_prompt@,
                self.qa@,
                self.question@,
            ),
    {
        let mut messages: Vec<Message> = Vec::new();
        messages.push(Message { role: role_text(Role::System), content: self.system_prompt.clone() });
        let n = self.qa.len();
        let mut i: usize = 0;
        while i < n
            invariant
                n == self.qa@.len(),
                i <= n,
                messages@.map_values(|m: Message| message_view(m)) == seq![
                    (system_role(), self.system_prompt@),
                ] + turns(self.qa@.take(i as int)),
            decreases n - i,
        {
            let item = &self.qa[i];
            let ghost before = messages@;
            let user = Message { role: role_text(Role::User), content: item.qustion.clone() };
            let assistant = Message {
                role: role_text(Role::Assistant),
                content: item.anwser.clone(),
            };
            messages.push(user);
            messages.push(assistant);
            assert(messages@ == before.push(user).push(assistant));
            assert(messages@.map_values(|m: Message| message_view(m)) =~= before.map_values(
                |m: Message| message_view(m),
            ) + seq![message_view(user), message_view(assistant)]);
            assert(self.qa@.take(i + 1).drop_last() =~= self.qa@.take(i as int));
            assert(self.qa@.take(i + 1).last() == self.qa@[i as int]);
            assert(turns(self.qa@.take(i + 1)) == turns(self.qa@.take(i as int)) + seq![
                (user_role(), self.qa@[i as int].qustion@),
                (assistant_role(), self.qa@[i as int].anwser@),
            ]);
            i += 1;
            assert(messages@.map_values(|m: Message| message_view(m)) =~= seq![
                (system_role(), self.system_prompt@),
            ] + turns(self.qa@.take(i as int)));
        }
        messages.push(Message { role: role_text(Role::User), content: self.question.clone() });
        assert(self.qa@.take(n as int) =~= self.qa@);
        assert(messages@.map_values(|m: Message| message_view(m)) =~= conversation(
            self.system_prompt@,
            self.qa@,
            self.question@,
        ));
        ChatMessage { model: self.model.clone(), stream: self.stream, messages }
    }
}

} // verus!
