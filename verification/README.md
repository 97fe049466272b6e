# File Peeker client

The client of File Peeker, a file browser that shows the files of this machine and, through SSH,
of others.

`src/` is a library verified with Verus. It holds what the client decides: the rows that a tree
view shows (`rows`, `state`, `tree`), the steps of starting, supervising and stopping servers
(`startup`, `connection`, `server`), of installing them (`install`, `remote_server_install`,
`cli`), and of sessions with their listings, walks, reads and opened files (`session`, `client`,
`operations`). Below these stand texts, shell words and paths (`text`, `shell`, `unix_path`,
`components`, `bytes`), messages (`protocol`) and errors (`api`, `io_error`).

A course of events with I/O in it is a state machine here: a phase, an event, and a function from
both to the next phase. Its contract says which phase follows. What holds across many steps or
calls is stated by the public proof functions whose names start with `law_`.

Calls into other crates stand behind small wrappers: `uuid` for random names (`ids`), `serde_json`
for version documents (`install`), `tonic` and `tonic-health` for headers and health
(`connection::grpc`), and the standard library for UTF-8 (`bytes`) and quoted texts (`protocol`).

`app/` is the program around the library: it runs processes, talks over sockets and works on files.
`tests/` holds the library's tests.
