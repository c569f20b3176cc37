# hostcmd

Run commands on a host over an authenticated websocket. A server executes what clients ask for and
streams stdin, stdout, stderr and the exit code; it can run in the foreground or as a daemon, and
expose itself through an SSH reverse port forward.

`src/` is a library verified with Verus. It holds the wire protocol and the decisions of the
program; system work is left to its callers, who hand it events and perform the actions it returns.

| Modules | What they hold |
| --- | --- |
| `wire`, `protocol`, `decode_error` | the frames, their bytes, and what refused frames are called |
| `roundtrip`, `frame_ends` | the laws of the wire format |
| `session`, `session_laws` | one connection on the server |
| `client`, `client_laws` | one client session, and both sides of a connection together |
| `command`, `command_laws` | one command: its environment, its output, its end |
| `auth` | the shared secret |
| `server`, `startup`, `ssh` | the server's files and address, its start, the port forward |
| `daemon`, `launch_laws` | launching the server in the background |
| `stop`, `stop_laws` | stopping a daemon |
| `cli`, `cli_rules` | the command line |
| `config`, `failure`, `logging`, `text` | names, paths, failures, log lines and texts |

Functions marked `external_body` call other crates or the standard library; the comment above each
says what is taken for granted of the call.

`tests/` runs the library. `app/` is the program around it: sockets, processes, files and signals.
