# outwiker

The OutWikerNG local RPC stack: a client and a server that exchange
MessagePack-RPC requests and responses in length-prefixed frames over a
unix domain socket (a named pipe on Windows).

- `src/` is the library, verified with Verus: the message model
  (`protocol`, `json`, `error`), framing (`framing`), the server's
  handler registry and dispatch (`handlers`), the server's answer to each
  received frame (`connection`), the client's call numbering, REPL
  command reading and parameter rules (`client`), whitespace handling
  (`text`) and endpoints (`transport`).
- `app/` is the program around it: `outwiker server [endpoint]` and
  `outwiker client [endpoint] [method [json-args]]`. It does the socket
  I/O, the MessagePack and JSON (de)serialization, logging and argument
  handling, and asks the library for the decisions: what a line or
  an argument text means, what the server answers, which failures end
  the shell.
- `tests/` exercises the library on concrete values.
