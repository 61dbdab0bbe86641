# tds-rpc

Requests, responses and framing of TDS remote procedure calls, written in
Rust and verified with Verus: server-side cursors (`sp_cursoropen`,
`sp_cursorfetch`, `sp_cursorclose`, `sp_cursorprepexec`), calls of arbitrary
stored procedures, packets, and the cancellation of a call in progress.

The library under `src/` only computes. What takes several steps over a
connection is a call machine: it says which action comes next (flush, send,
receive), and is told how the last one went. The crate under `app/` performs the
actions, and warns of server-side handles that are given up unreleased.

| module | what it holds |
| --- | --- |
| `flags`, `options` | sets of protocol flags, and the cursor options |
| `types`, `text`, `error` | values, columns, outputs; names and numerals; errors |
| `rpc` | requests, and the exchange that carries one out |
| `params` | the parameter lists of the cursor procedures |
| `outputs` | what the output parameters of the cursor procedures say |
| `cursor`, `prepared`, `direct` | cursors, prepared cursors, direct executions |
| `procedure` | calls of stored procedures |
| `buffer`, `packet` | the byte buffer, and packets in it |
| `cancellation` | the cancellation token and signal |

Proof functions whose names start with `law_` state what holds across several
functions. Code from other crates is reached through a few declarations whose
contracts are taken on trust; they are in `buffer` and `cancellation::state`, each with
a comment that says what it claims.
