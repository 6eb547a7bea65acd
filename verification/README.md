# lightning_sentinel

A bot that watches Lightning (LND) nodes over Tor and tells their owners on
Telegram how the nodes are doing.

- `src/` is the verified library: the bot's commands and replies, the
  parsing of registration messages, the record kept per user, the offset of
  Telegram updates, and the watch of a node as a state machine from events
  to actions, with the laws that hold of it.
- `app/` runs the bot: Tor, the HTTP clients, the record file, the polling
  loops, and the JSON that goes in and out.
- `tests/` exercises the library on concrete values.
