# gws-executa

A plugin that speaks JSON-RPC, one message to a line, and runs `gws` commands. The plugin's
executable is started a second time for each command and then runs as `gws` itself.

- `src/` is the library. It decides everything that can be decided from plain values: when the
  session ends, what a line asks for, which arguments and credentials are accepted, with which
  arguments and in which environment the child process starts, what is reported of it, and how
  the response leaves the plugin. Every function of it is verified with Verus against its
  contract, but for the five that call outside code: `value_from_str`, `open_value` and
  `number_from_i32` in `json` call `serde_json`, `text_from_utf8_lossy` in `command` calls the
  standard library, and `current_timestamp` in `request` calls `chrono`. Their contracts are
  trusted, and each says in its doc comment what it claims of the call.
- `tests/` runs the library on concrete values.
- `app/` is the program: it reads lines, looks at the file system and the environment, starts
  the child process, and writes files and lines, as the library says.

The modules of the library:

| module | what it holds |
| --- | --- |
| `text` | character classes, trimming |
| `json` | JSON values, read by `serde_json` |
| `protocol` | requests, responses, and the plan of how to send one |
| `request` | from a line of input to its answer or next step |
| `manifest` | what the plugin says of itself |
| `arguments` | the arguments of the tool |
| `credentials` | where a command's credentials come from |
| `invoke` | an invocation of the tool, step by step |
| `command` | the child process and its environment |
| `tool` | what is reported of a command |
| `transport` | standard output or a response file |
| `session` | when to go on and when to stop, and which messages go out for which lines |

The laws that relate several functions are the public proof functions whose names start with
`law_`.
