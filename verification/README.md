# abstractions

A plugin host built around a `poll(2)` loop, with its logic verified by Verus.

`src/` is the verified library:

- `buffer`, `growable_buffer`, `unix_app` — byte buffers (with consumed data, with a
  maximum capacity, with a set-up length), a buffer pool, the bounded task queue, the
  descriptors of the application loop and its shutdown state.
- `shutdown`, `app_shutdown`, `reload_config` — the shared shutdown state (how the
  application stands, its exit code and message, and when the stop began and ended), the
  simple shutdown flags and the reload flag.
- `unix_poll` — the poll set: entries handed to `poll(2)`, indexed by descriptor.
- `fds` — a list of descriptors with the positions of the signal descriptor, standard input
  and standard output, its poll list, and the walk over the events a poll reported.
- `unix_event` — the events of the application's loop, the answers of its handlers, and the
  handlers themselves: forwarding typed input to the pseudo-terminal, stopping on a read of
  zero bytes or on a signal.
- `context` — what the application shares with its plugins: the poll set, the shutdown
  state, the log queue and the reload flag.
- `fd_io`, `errno`, `poll_handlers`, `signalfd_middleware`, `poll_middleware` — what a read
  or a write of a descriptor came to, what the handlers of the poll loop do with it, and the
  exit code and message once the loop has ended.
- `log_buffer` — the bounded log queue, messages cut into entries, and log lines.
- `plugin`, `plugin_loader`, `config_file` — plugin configurations, the plugin manager,
  reading the `plugins` table from the text of the configuration file (parsed by the `toml`
  crate), and the changes a new configuration asks for.
- `poll_plugin`, `signal_plugin`, `config_watcher`, `logfile` — the decisions of the four
  plugins: counting errors, giving up, acting on signals, detecting an edit of the
  configuration file from inotify records, and flushing the log.
- `signals`, `text`, `keypress`, `error`, `handler_traits` — signal names and messages,
  decimal texts, the terminal's keypress mode, the Unix error codes and the handler traits.

`app/` is the program: command line, logging setup, reading the file `config.toml`, loading plugin
libraries, and the system calls (`poll`, `read`, `write`, signal, timer, event and inotify
descriptors) that the plugins' decisions are made on. A plugin whose `path` reads
`builtin:<name>` (`poll`, `signal`, `logger`, `config_watcher`) is the one linked into the
program; any other path names a library that exports `register_rust_plugin` or
`register_c_plugin`.

`tests/` runs the library on concrete values.
