# bore_client

The client of a TCP tunnel: it makes a local port public on a remote server and
stays connected to it.

`src/` is a verified library. It opens no socket and reads no clock. Each
procedure is a value that names the next action and takes what came of it:

| module      | procedure                                                     |
|-------------|---------------------------------------------------------------|
| `opening`   | open a control connection                                     |
| `retry`     | open it in several attempts                                   |
| `listen`    | listen to the server and watch its heartbeats                 |
| `forward`   | set up one forwarded connection                               |
| `reconnect` | connect again after a connection is lost                      |
| `command`   | turn a command into one of the above                          |

`backoff` counts attempts and spaces them out, `connect` reads the outcome of a
connection in a limited time, and `error`, `message`, `span` and `text` hold what
the others speak of. Proof functions whose names begin with `law_` state what
holds of the procedures as a whole.

`app/` is the program around it: sockets, timers and the command line. Frames,
handshake and server come from the `bore_cli` crate.
