# codexctl

A thin shell-native controller for the Codex App Server, whose decisions are
verified with [Verus](https://github.com/verus-lang/verus).

`codex app-server` speaks JSON-RPC. `codexctl` puts a scriptable command line
on top: one persistent daemon, spawned on first use, named threads, and a
handful of subcommands that map onto the protocol.

| Command | What it does |
|---|---|
| `codexctl daemon start [--port N]` | Spawn the persistent `codex app-server` if not running. |
| `codexctl daemon stop` | SIGTERM the daemon, fall back to SIGKILL after 5s. |
| `codexctl daemon status` | Show pid and port. |
| `codexctl daemon logs` | Print the path of the daemon log. |
| `codexctl start <name> --cwd <path> [--objective "..." --budget N]` | New named thread. With `--objective`, runs a first turn and then sets the goal. |
| `codexctl ls` | List named threads. |
| `codexctl say <name> "<msg>"` | Begin a turn. |
| `codexctl steer <name> "<msg>"` | Add to the turn in flight. Errors if idle. |
| `codexctl interrupt <name>` | Cancel the turn in flight. |
| `codexctl goal <name> --set "<obj>" \| --pause \| --resume \| --clear \| --budget N` | Manage the goal. |
| `codexctl status <name>` | Summary with the current goal. |
| `codexctl tail <name> [--no-deltas]` | Stream notifications until ctrl-c. |
| `codexctl rm <name> [--keep-rollout]` | Archive the thread and drop its name. |

Its files lie in `~/.codexctl`: `threads.json`, `daemon.pid`, `daemon.port`
and `daemon.log`. Codex's own state, its database among it, stays where codex
keeps it; where `CODEX_SQLITE_HOME` names another directory for the database,
the daemon is launched with that.

## Layout

- `src/` is the library: what is sent, in which order, what is printed and how
  each failure ends, with contracts. A command is a session that is told of an
  event and answers with what to print and what to do next.
- `app/` is the program: arguments, files, processes, the web socket. It
  carries out what a session asks for and hands back how that went.
- `tests/` runs the library on concrete values.

An objective is capped at 4000 characters, as the app-server does. For a
longer brief use `--no-objective-yet`, `say` the brief, and then set a short
objective with `goal --set`.
