# lexi

A Telegram bot that answers by way of OpenAI's responses API, with tools that the model can call:
checking a slot of the beacon chain, querying databases, telling their schemas, retrieving manuals,
managing scheduled jobs, switching circuit breakers of a relay, and administering the conversation.

- `src/` is the library, verified with Verus: what is sent, what is made of each answer, and which
  step comes next. Nothing in it waits, reads or sends.
  - `bot`: updates, mentions, replies, polling, proactive slot checks and the context of a
    conversation.
  - `ai_interaction`: the conversation with the model, its tools, and sessions of administrators.
  - `scheduler`: jobs that run on a cron schedule.
  - `telegram`: messages, how long ones are split, and Markdown as Telegram's HTML.
  - `openai_api`: requests and responses.
  - `handler`, `message_processor` and `tools`: bots and conversations with few tools.
  - `db`, `env`, `time`, `text`, `json` and `http_status`: what the others stand on.
- `tests/` runs the library on values.
- `app/` is the program: it performs the steps that the library asks for, and hands back what came
  of them.
