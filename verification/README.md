# hterm_h2

The h2 bridge of a terminal. `src/` is the verified library:

- `pane`: panes that show lines of h2 text, cut to the terminal
- `rpc`, `frame`: requests to h2 nodes and ui sockets, and what the responses mean
- `status`: the status line, and how the sockets are polled for it
- `json`: a model of JSON values, and the calls into `serde_json`
- `text`: decimal numbers and clipped lines

`app/` holds what touches the outside: sockets, threads, the environment, and the
lock around a pane.
