# komorebi

The decisions of a tiling window manager for macOS, verified by [Verus](https://github.com/verus-lang/verus).

- `src/` is the library. It holds the state (windows in containers, containers on
  workspaces, workspaces on monitors) and decides what commands, events and displays that
  come and go change about it. Every function states in its contract what it returns and
  what it changes; the public proof functions whose names begin with `law_` state what holds
  across functions.
- `app/` is the program around it: arguments, logging, sockets, files, threads, and the calls
  into the system. It says what it sees in plain values, and carries out what the library
  decides. Layouts are behind the trait `Engine`; the one engine that comes with it,
  `StaysPut`, computes none and leaves windows where their applications put them.
- `tests/` runs the library on concrete values.

The library moves no window itself. It answers with a list of operations, which are carried
out in order until one of them fails. Regular expressions in rules are matched by the `regex`
crate; what is believed of it is written above `rules::search`.
