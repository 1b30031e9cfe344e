# payjoin_session

Sans-IO payjoin sessions, verified with Verus.

A payjoin session is a state machine whose every advance is an event. This crate
holds what is around the protocol: the log of events and what may be shown
before an event is durable, the states of both roles with the checks on what
crosses into them, and drivers that run a whole session. It does no I/O: the
caller sends the requests, stores the events and signs.

| Module     | What it holds |
|------------|---------------|
| `persist`  | The event buffer with its two-phase drain, and provisionals that hold a value back until its event is durable |
| `staging`  | Ids that tell buffers apart, and provisionals that belong to one particular buffer and are handed out once |
| `receive`  | The receiver's states, builder, buffer, replay and errors |
| `send`     | The same for the sender |
| `runtime`  | Drivers for whole sessions: say what to do next, take the answer |
| `chain`    | Bitcoin values, and the calls into the `bitcoin` crate |
| `validation`, `error`, `session`, `text`, `collect` | What the others share |

The cryptography and the transaction rules of the protocol itself come in
through `receive::engine::ReceiverEngine` and `send::engine::SenderEngine`.
Nothing is taken for granted of an engine: each contract says which of its
functions is asked, with what, and what is made of every answer. An answer that
moves a session carries the event that records the move, so none is left out.

Laws that span several functions are public proof functions whose names begin
with `law_`, beside the functions they are about. The few that rest on how the
protocol decides stand in `receive::agreement`, each with its premise named.

`app/` is ordinary Rust around the library: handles that can be shared between
threads, JSON, errors for `std`, and PSBTs of the `bitcoin` crate.
