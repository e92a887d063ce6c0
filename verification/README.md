# signal_neon_futures

Lets `async` Rust code in a native Node module wait on JavaScript promises, and hands the
results of Rust futures to JavaScript as promises.

- `src/` is the library. It is written in Verus: what its functions promise is stated in
  contracts and proved. It decides what is to be done, and never touches the JavaScript engine.
  - `script`: what the engine is asked to do, one instruction at a time.
  - `context`, `context_data`: the state that a future shares with its callbacks, and the
    JavaScript values that it keeps.
  - `run`: how a future is advanced inside a JavaScript call.
  - `future`, `future_builder`, `result`: futures for the results of promises.
  - `promise`: promises for the results of futures.
  - `bridge`: the futures and the native functions of the protocol bridge.
  - `samples`: native functions that show what becomes of panics and exceptions.
  - `heap`, `pending`: proofs of what all of this amounts to.
- `app/` is ordinary Rust around the library: it performs the instructions with Neon, polls
  the futures, and catches panics.
- `tests/` runs the library, part of it against a small JavaScript engine.
