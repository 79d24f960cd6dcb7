# hyperbox

A runtime for running untrusted commands in sandboxes: one control plane with an explicit
network policy, sessions that are reused, processes that outlive the command that started them,
and snapshots.

The rules and the decisions are in the library under `src/`, written in Verus: each function
states what it does in its contract, and the contracts are proved. The program under `app/` is
what is left: arguments, files, sockets, processes, the database, the clock, and averages, which
are floating-point numbers.

## How the parts fit

Work that waits on the outside world is a machine. `begin` gives its first step, a step asks for
an effect (start this container, read this file), the program carries the effect out, and
`resume` takes the reply and gives the next step. What a machine may ask for, and in which order,
is its `follows`. What holds of several steps, or of several machines together, is stated as a
proof function where the library promises it.

| Module | What it holds |
| --- | --- |
| `text`, `numbers`, `order`, `table`, `codec` | texts, decimals, stable sorting, keyed rows, encodings |
| `ids`, `time`, `env`, `paths`, `shell` | identifiers, timestamps, environments, paths, quoting |
| `config`, `model`, `process`, `snapshot`, `template`, `affinity` | sandboxes, allowlists, processes, templates, session names |
| `network` | which hosts are let through, the DNS filter, firewall plans |
| `server` | sandboxes, runs, processes, pools, metrics, the store, messages and rows |
| `agent` | commands, files and shells inside a sandbox |
| `apple` | containers by way of a helper process |
| `firecracker` | machines, their interface, their agent and their workspaces |
| `cli` | what each command of the command line does |

## What is not proved

What the library asks of other crates stands behind functions whose contracts are taken on
trust; each says in its comment which function it calls and what it claims of it. They are in
`text`, `env`, `ids`, `time`, `codec`, `network::policy` and `network::dns_proxy`.

The program under `app/` is ordinary Rust. It keeps to the contracts of the library by checking
before a call what the call requires.
