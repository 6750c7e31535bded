# chat_gpt_line

A command-line chat client: the arguments form a question, which is sent to a
chat-completion service together with the latest exchanges of the current
terminal session; the answer is shown as it arrives and the exchange is kept.

- `src/` is the verified library (Verus): building the request body
  (`gpt_request`, `g_bot`), recognising the texts of a streamed reply line by
  line, including characters cut by a line break (`stream`), the session
  history and which of it is sent along (`history`), the settings
  (`g_config`), the message types (`request_json`) and the text operations
  they rest on (`text`, `json`).
- `app/` is the program around it: reading the settings and history files,
  JSON and YAML (de)serialisation of the library's types, the HTTP request,
  and showing the answer.
- `tests/` exercises the library.
