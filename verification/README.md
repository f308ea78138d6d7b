# cohere_provider

The Cohere provider of an inference gateway: chat requests to Cohere's v2 API, whole
and streamed answers, errors and credentials.

`src/` is the library. What it decides is stated in `requires` and `ensures` clauses
and proved by Verus; what has to hold across functions is stated by the public
`law_...` proof functions. It sends nothing and waits for nothing: an inference is a
sequence of steps (`provider.rs`, `stream.rs`), each of which says what to do next.
The few calls into other crates stand in `outside.rs`, each with the contract that
the proofs rest on.

`app/` takes those steps: it writes and reads the JSON, talks HTTP and runs the
streams.

`tests/` runs the library on concrete values.
