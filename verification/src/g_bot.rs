//! The bot that asks: how a question and its context become a request.
use vstd::prelude::*;
use crate::g_config::config;
use crate::gpt_request::gpt_request;
use crate::history::QA;

verus! {

/// The asking bot, with the settings it runs with.
pub struct g_bot {
    pub config: config,
}

impl g_bot {
    /// A bot running with `settings`.
    pub fn new(settings: config) -> (r: Self)
        ensures
            r.config == settings,
    {
        g_bot { config: settings }
    }

    /// The request that asks `quest`, with the earlier exchanges `history`
    /// (none when there is no history) and the bot's settings: its key,
    /// destination, model, proxies, stream setting and opening instructions.
    pub fn request_for(&self, history: Option<Vec<QA>>, quest: String) -> (r: gpt_request)
        ensures
            r.token == self.config.token,
            r.endpoint == self.config.endpoint,
            r.model == self.config.module,
            r.http_proxy == self.config.http_proxy,
            r.https_proxy == self.config.https_proxy,
            r.stream == self.config.stream,
            r.system_prompt == self.config.system_prompt,
            r.question == quest,
            r.anwser@ == Seq::<char>::empty(),
            history matches Some(h) ==> r.qa@ == h@,
            history is None ==> r.qa@ == Seq::<QA>::empty(),
    {
        let history = match history {
            Some(load) => load,
            None => Vec::new(),
        };
        let mut request = gpt_request::new();
        request.add_token(self.config.token.clone())
            .add_QA_histore(history)
            .enable_stream(self.config.stream)
            .set_qustion(quest)
            .set_endpoint(self.config.endpoint.clone())
            .set_system_prompt(self.config.system_prompt.clone())
            .set_model_name(self.config.module.clone())
            .add_http_proxy(self.config.http_proxy.clone())
            .add_https_proxy(self.config.https_proxy.clone());
        request
    }
}

/// The texts of `parts` one after the other.
pub open spec fn joined(parts: Seq<String>) -> Seq<char>
    decreases parts.len(),
{
    if parts.len() == 0 {
        Seq::empty()
    } else {
        joined(parts.drop_last()) + parts.last()@
    }
}

/// Joining texts one after the other: nothing joins to the empty text, and
/// adding a part at the end adds its text at the end.
pub proof fn lemma_joined_push(parts: Seq<String>, p: String)
    ensures
        joined(Seq::<String>::empty()) == Seq::<char>::empty(),
        joined(parts.push(p)) == joined(parts) + p@,
{
    assert(parts.push(p).drop_last() =~= parts);
}

/// Joining two runs of parts joins their joined texts, and the length of a
/// joined text is the sum of the lengths of its parts' texts.
pub proof fn lemma_joined_concat(a: Seq<String>, b: Seq<String>)
    ensures
        joined(a + b) == joined(a) + joined(b),
        joined(a + b).len() == joined(a).len() + joined(b).len(),
    decreases b.len(),
{
    if b.len() == 0 {
        assert(a + b =~= a);
        assert(joined(a) + joined(b) =~= joined(a));
    } else {
        lemma_joined_concat(a, b.drop_last());
        assert((a + b).drop_last() =~= a + b.drop_last());
        assert((a + b).last() == b.last());
        assert(joined(a + b) =~= joined(a) + joined(b));
    }
}

/// Every part's text stands in the joined text, in order: the text of part
/// `i` starts where the texts of the parts before it end.
pub proof fn lemma_joined_parts(parts: Seq<String>, i: int)
    requires
        0 <= i < parts.len(),
    ensures
        joined(parts).subrange(
            joined(parts.take(i)).len() as int,
            (joined(parts.take(i)).len() + parts[i]@.len()) as int,
        ) == parts[i]@,
{
    lemma_joined_concat(parts.take(i), parts.skip(i));
    assert(parts.take(i) + parts.skip(i) =~= parts);
    let rest = parts.skip(i);
    lemma_joined_concat(seq![rest[0]], rest.skip(1));
    assert(seq![rest[0]] + rest.skip(1) =~= rest);
    lemma_joined_push(Seq::<String>::empty(), rest[0]);
    assert(Seq::<String>::empty().push(rest[0]) =~= seq![rest[0]]);
    let pre = joined(parts.take(i));
    assert(joined(parts) =~= pre + (parts[i]@ + joined(rest.skip(1))));
    assert(joined(parts).subrange(pre.len() as int, (pre.len() + parts[i]@.len()) as int) =~= parts[i]@);
}

/// The question that the command line asks: its arguments after the
/// program's name, written one after the other.
pub fn join_question(args: &Vec<String>) -> (r: String)
    ensures
        args@.len() == 0 ==> r@ == Seq::<char>::empty(),
        args@.len() > 0 ==> r@ == joined(args@.skip(1)),
{
    let mut question = String::new();
    let n = args.len();
    if n == 0 {
        return question;
    }
    let mut index: usize = 1;
    assert(args@.skip(1).take(0) =~= Seq::<String>::empty());
    while index < n
        invariant
            n == args@.len(),
            1 <= index <= n,
            question@ == joined(args@.skip(1).take(index - 1)),
        decreases n - index,
    {
        question.append(args[index].as_str());
        assert(args@.skip(1).take(index as int).drop_last() =~= args@.skip(1).take(index - 1));
        index += 1;
    }
    assert(args@.skip(1).take(n - 1) =~= args@.skip(1));
    question
}

} // verus!
