# axum_channels

Phoenix channels over websockets. Clients join named channels, send events to them, and get
what the channels push and broadcast, each frame a JSON array of five fields:
`[join_ref, msg_ref, channel, event, payload]`.

`src/` is the library, verified with Verus. It holds the message model, the reading and
writing of frames, and the decisions of the tasks: what a socket does with a message in its
mailbox (`conn`), how a channel handles a message and who is present in it (`channel`), and
which channels there are and when they end (`registry`). A decision is a value: the functions
return what is to be sent where, and senders are numbers (`endpoint`). JSON itself is
`serde_json`'s; `json` says what is relied on. `laws` states what holds across modules.

`app/` is the server around it: axum for the websockets, tokio for the tasks and their queues.

`tests/` plays whole conversations (`scenarios`) and checks each part by itself.
