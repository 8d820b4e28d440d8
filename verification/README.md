# shimmie_bot

A Discord bot that relays the events of a Shimmie image board (new, edited and
deleted posts, comments and users), received as JSON over UDP, to Discord
channels, and remembers in SQLite which message announced which post or comment.

- `src/` is the verified library (Verus): the embeds and their links, the
  choice of picture file for a post, the routing of events, and each handler's
  conversation with the outside world as a state machine that asks for one
  database or Discord request at a time (`effects::Effect`) and is resumed with
  what came of it (`effects::Reply`). `src/laws.rs` states what holds over whole
  conversations.
- `app/` is the runtime: UDP, JSON decoding, the SQLite queries (diesel) and the
  Discord calls (serenity) that carry the requests out.
