# runebench_pi_agent

The decision logic of the Runebench agent host, verified with Verus.

- `src/` is the library. Its functions carry contracts over plain mathematical models (sequences
  of characters, maps, integers), and the public proof functions state what holds of several
  functions together.
- `app/` is the host around it: what only the operating system and the agent core can do. The
  library tells it what to do next, down to the command lines and the environments of the child
  processes, and it reports what came of it. Its own are the places, names and modes of private
  files, the polling interval, and the values that the agent core is built from.
- `tests/` runs the library on concrete values.

Four courses are modelled as state machines whose states are also the requests to the host:

| module       | course                                                          |
|--------------|-----------------------------------------------------------------|
| `transfer`   | one HTTP transfer to the model provider                         |
| `session`    | one exchange with the MCP server, and the handshake             |
| `startup`    | a run from the command line to its end                          |
| `connection` | starting the MCP server, the handshake, and clearing up after it |

The rest is computed in one go: the command line (`args`), the model provider (`provider`), the
conversation and the event log (`messages`, `quote`), tool results and the circuit breaker
(`results`, `hook`), completions (`completion`), the tool handlers' capability (`capability`),
child processes and deadlines (`process`), token usage (`usage`), and the run as a whole (`host`).
