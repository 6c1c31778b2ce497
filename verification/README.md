# signal-mcp

A Signal client as an MCP server. It sends and receives Signal messages for any
MCP-compatible client, over standard input and output or a Unix socket, and comes with a
command line client of its own.

The rules of the server are a library verified with Verus; the program around it does the
input and output.

## The library (`src/`)

| Module      | What it holds                                                              |
|-------------|----------------------------------------------------------------------------|
| `dispatch`  | which method a request is for, and the steps by which it is served         |
| `methods`   | what each method comes to: sending, listing, reading, synchronizing        |
| `tools`     | the tools that are listed, and how the server introduces itself            |
| `rpc`       | JSON-RPC requests and responses                                            |
| `server`    | the handshake, storing what was received, reconnecting                     |
| `storage`   | contacts, groups and messages in SQLite                                    |
| `signal`    | what is received from Signal, sent to it, and synchronized from it         |
| `daemon`    | starting and stopping the server in the background                         |
| `client`    | what the command line client asks, and what it prints                      |
| `base64`    | group ids                                                                  |
| `json`, `json_text` | JSON values and their texts                                        |
| `paths`, `text`     | files of the configuration directory; text building blocks         |

A request is served in steps. `dispatch::handle_request` says what to do next: answer, read
parameters, or perform a method. Reading parameters is left to the program, which hands the
result to the next step. A method that needs Signal stops where Signal is needed and goes on
with the reply.

The store is described by the statements that were handed to SQLite and the answers that came
back, and by the file that it is in. What the file holds is up to SQLite and to whoever else has the file open, so
the contracts say what is asked and what is made of the answer.

## The program (`app/`)

`app/` holds the command line, the sockets, the runtime, the background process, the JSON texts
of the messages, and the connection to Signal through presage.

- `signal-mcp link [--name NAME]` - link this device to a Signal account, by a link to scan
- `signal-mcp server [--stdio] [--daemon]` - start the server
- `signal-mcp stop` - stop the server that runs in the background
- `signal-mcp send RECIPIENT MESSAGE` - send a message
- `signal-mcp status` - check the server's status
- `signal-mcp contacts [FILTER]`, `groups [FILTER]`, `sync` - contacts and groups

Data is stored in `~/.config/signal-mcp/`: `signal.db` (Signal protocol state),
`signal-mcp.db` (messages and contacts), `signal-mcp.sock` (socket for clients).
