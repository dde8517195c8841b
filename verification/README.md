# webtransport_client

A WebTransport client. Its state and every decision it takes are in `src/` and verified with Verus;
sockets, tasks and printing are in `app/`.

- `client`: the client, its operations and what they do to it.
- `connect`: the events and actions of an attempt to connect.
- `read_task`: the task that writes a frame to the connection for each queued message.
- `channel`: the queue between the two, a `tokio` unbounded channel.
- `text`: the lines of text that the client reports.
- `laws`: what holds over several calls.

`connect` and the read task do no I/O. The caller hands them an event, performs the action that
comes back and hands back the outcome as the next event, as `app/` does.
