# usslot_bot

A Telegram bot that answers the slot-machine dice sticker and keeps a ticket
balance per user in MongoDB.

- `src/` is the verified library: the replies to stickers and commands, the
  slot payouts and the bet queries, the routing of updates and messages, the
  command table, the Bot API addresses and the handling of HTTP answers, the
  log level choice and the error messages.
- `app/` is the program around it: command line and configuration, HTTP calls
  to the Bot API (reqwest), the MongoDB store, the polling loop (tokio) and
  logging. It converts between the JSON shapes (serde) and the library's types.
- `tests/` runs the library on concrete values.
