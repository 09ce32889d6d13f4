# proxy_agent

The decisions of a local proxy that authenticates and signs the requests which the programs of a
machine make to its host.

- `src/` is the library, verified with Verus. It does no input or output: each state machine takes
  what came of its pending call, goes on to the next call, and returns what is to be done.
  - `span`, `span_laws`: a span of time and the messages that report it.
  - `iptable_redirect`, `iptable_laws`: the firewall rules that redirect traffic to the proxy.
  - `proxy_listener`, `listener_laws`: the listener and the requests that it serves.
  - `proxy_connection`, `connection_model`, `connection_handler`, `connection_laws`: one proxied
    connection, from its acceptance to its summary.
  - `text`: decimal texts.
- `app/` carries out what the library asks for: threads, sockets, commands, the log and JSON.
- `tests/` runs the library on concrete values.
