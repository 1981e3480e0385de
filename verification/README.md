# nactl

The verified core of `nactl`, a command-line tool and stdio MCP server that
manages configuration entries of Nacos and r-nacos servers.

- `src/` is the library, checked by Verus: how connection settings are
  resolved (flags, then the configuration file, then the environment), the
  parameters of each request, how each answer is read (login, listing,
  fetch, publish, removal), when a login token is reused, the text output,
  and the framing of MCP messages on stdio. `src/laws.rs` states the
  properties that span several functions.
- `app/` is the program around it: argument parsing, files, environment
  variables, HTTP, the MCP server and its transport.
- `tests/` runs the library on concrete values.
