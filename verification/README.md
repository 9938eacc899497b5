# zellij_web_client

The decisions of a terminal multiplexer's web client server, verified with Verus.

- `src/auth.rs`, `src/cookies.rs`: letting requests in by their session cookie,
  and remembering for a while which tokens were found valid.
- `src/heartbeat.rs`: probing a client, and when to give it up.
- `src/control/`: the control connection, with throttled resizes.
- `src/terminal/`: the terminal connection, from admission to its end.
- `src/listener/`, `src/config.rs`, `src/socket.rs`: the listener between a client
  and the server of its session.
- `src/notices.rs`, `src/wording.rs`, `src/text.rs`: what a client is shown when
  its session cannot start or has ended.

Each connection is a state machine: its `step` takes in what happened and answers
with what is to be done. The `laws` modules prove what holds of every run.

`app/` holds the sockets, tasks and threads that perform what the state machines
ask for. `tests/` runs the library.
