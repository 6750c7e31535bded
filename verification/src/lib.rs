//! A command-line chat client: the request it builds, the event stream it
//! decodes, the conversation history it keeps and the settings it reads.
#![allow(non_camel_case_types)]
#![allow(non_snake_case)]

pub mod text;
pub mod json;
pub mod request_json;
pub mod stream;
pub mod history;
pub mod gpt_request;
pub mod g_config;
pub mod g_bot;
