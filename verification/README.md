# tao

The logic of a coding agent as a verified library, with a program around it.

`src/` holds what the agent decides and computes. Every function there has a contract,
and Verus proves it. What only happens outside (files, processes, the network, the
terminal) is asked for by values: a function of the library says what is to be done,
the program does it, and hands back what came of it.

| Modules | What they are about |
|---|---|
| `text`, `json`, `codec`, `form`, `paths`, `order`, `table`, `dup` | texts, JSON and its forms, paths, order |
| `ids`, `permission`, `content`, `op`, `event`, `log`, `wire` | messages between the agent and its clients, and the lines of the log |
| `permissions` | which calls are allowed, denied or asked about |
| `apply_patch`, `tools` | patches, and what each tool is asked and answers |
| `model`, `providers` | requests to models, and what their streams come to |
| `hooks`, `session`, `runs`, `task` | the turn, step by step and as a whole, with hooks and sub-agents |
| `recorder`, `replay`, `rebuild`, `compact`, `checkpoint` | the session log, what it brings back, and what is made short |
| `config`, `front`, `commands`, `skills`, `agents`, `instructions` | settings and what files of the user and the project say |
| `server`, `rpc`, `acp`, `mcp`, `exec`, `tui` | the ways to drive the agent |

Data types have a model of their own: `X` is described by `XView`, which
`deep_view` gives, and texts are sequences of characters. What holds across functions
stands as a public proof function whose name begins with `law_`.

Calls into other crates stand behind small functions marked
`#[verifier::external_body]`. Each says in its doc comment what is taken for granted.

`app/` is the program `tao`: arguments, files, processes, HTTP and the terminal.
`tests/` runs the library on concrete values.

The files that hold instructions are `AGENTS.md`, then those that
`TAO_INSTRUCTION_FILES` names (with commas between them), then `TAO.md`. The first that is
there counts.
