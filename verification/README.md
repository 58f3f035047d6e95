# libherald

The models behind the Herald desktop client's views, as a verified library:
message lists with search and replies, user and member lists with filters,
the conversation builder, the global message search, and the routing of
server notifications. Storage, the network, the pattern engine and the Qt
binding stay outside; the library takes what they report as plain values and
hands back what to do, with contracts proved by Verus.

- `src/messages`: the message list of a conversation (container ordered by
  insertion time, search state, reply builder).
- `src/message_search.rs`, `src/users.rs`, `src/members.rs`,
  `src/conversation_builder.rs`, `src/network.rs`: the other current models.
- `src/implementation*`: the classic models, which talk to the view through
  outboxes of signals and list-model calls.
- `src/interface*`: the emitters and list models that carry signals to the view.
- `app/`: the buses, storage and network calls around the library;
  `app/classic.rs` drives the classic message list, configuration,
  conversation list and contact list.
