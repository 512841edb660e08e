# media_runner

One worker of a media server, verified with Verus.

A worker stands between three tasks: the worker of an overlay network, the media cluster that
knows the rooms, and the WebRTC sessions. It decides which task a request, a packet or an event
is for, answers requests over WHIP, WHEP and the native WebRTC protocol, reports how busy it is,
and polls the tasks in turn for what they put out.

- `src/` is the worker, as a state machine: each step takes an input and returns an output and
  the calls that are to be made on the tasks. `model.rs` says what each step does, `laws.rs`
  what follows for the worker as a whole, `outside.rs` what is taken on trust of other crates.
- `tests/` runs it.
- `app/` holds the tasks, makes the calls and hands back what comes of them.
