# rustycrab_api

The core of a Discord bot, written in Verus: every function in `src/` carries
a contract that Verus proves.

- `src/text.rs`: trimming, splitting, search, number parsing and printing.
- `src/voice_manager.rs`: per-guild music queues, loop modes and the song now
  playing, with the steps taken when a track starts or ends.
- `src/commands/`: the prefix and slash commands: names, arguments,
  permissions, and the decisions and replies of each.
- `src/afk.rs`: who is away, the AFK check of each message, mentions.
- `src/paging.rs`: paged lists and their buttons.
- `src/tickets.rs`, `src/buttons.rs`: the ticket system and button routing.
- `src/messages.rs`: message content, embeds, replies and colours.

A reply is described by the library as a message key, a colour and whether
only the acting user sees it; `app/` looks the key up, sends the message and
performs the network calls (YouTube search, SoundCloud) that the library
leaves to it. The tests under `tests/` exercise the library directly.
