//! The settings the client runs with.
use vstd::prelude::*;

verus! {

/// The settings read from the configuration file.
pub struct config {
    /// The proxy for plain HTTP, empty for none.
    pub http_proxy: String,
    /// The proxy for HTTPS, empty for none.
    pub https_proxy: String,
    /// The key requests are authorised with.
    pub token: String,
    /// The program answers are shown with, empty to print them.
    pub view_editor: String,
    /// How many earlier exchanges are sent along with a question.
    pub memory: u8,
    /// The model asked.
    pub module: String,
    /// Whether answers are asked for as a stream.
    pub stream: bool,
    /// Where requests go.
    pub endpoint: String,
    /// The instructions that open each conversation.
    pub system_prompt: String,
}

/// The name of the default viewer program.
pub open spec fn default_viewer() -> Seq<char> {
    seq!['c', 'a', 't']
}

/// The name of the default model.
pub open spec fn default_model() -> Seq<char> {
    seq!['g', 'p', 't', '-', '3', '.', '5', '-', 't', 'u', 'r', 'b', 'o']
}

/// The settings written when there are none yet: no proxies and no key,
/// answers shown with `cat`, one earlier exchange sent along, the model
/// `gpt-3.5-turbo`, and answers streamed.
impl Default for config {
    fn default() -> (r: Self)
        ensures
            r.http_proxy@ == Seq::<char>::empty(),
            r.https_proxy@ == Seq::<char>::empty(),
            r.token@ == Seq::<char>::empty(),
            r.view_editor@ == default_viewer(),
            r.memory == 1,
            r.module@ == default_model(),
            r.stream,
            r.endpoint@ == Seq::<char>::empty(),
            r.system_prompt@ == Seq::<char>::empty(),
    {
        proof {
            reveal_strlit("cat");
            reveal_strlit("gpt-3.5-turbo");
        }
        config {
            http_proxy: String::new(),
            https_proxy: String::new(),
            token: String::new(),
            view_editor: String::from_str("cat"),
            memory: 1,
            module: String::from_str("gpt-3.5-turbo"),
            stream: true,
            endpoint: String::new(),
            system_prompt: String::new(),
        }
    }
}

/// A chat bot and the settings it runs with.
pub struct bot_config {
    pub bot_config: config,
}

impl bot_config {
    /// A bot running with `settings`.
    pub fn new(settings: config) -> (r: Self)
        ensures
            r.bot_config == settings,
    {
        bot_config { bot_config: settings }
    }
}

} // verus!
