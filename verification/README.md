# crusty

Crusty is a terminal AI agent that talks to a model either through an AI proxy/router
(9router, OmniRoute) or directly through an OpenAI-compatible provider.

This crate is split in two:

- `src/` is the library, written in Verus and verified: the configuration model (proxies,
  providers, plugins, store, running mode) and every change the commands make to it, the
  provider URL rules, the proxy addresses and start command, the store URIs, the parsing of
  pid files and of `lsof`/`netstat` output, the chat memory (history rows, stored message
  text, sessions), the handling of the agent's answer stream, the weather summary, and the
  menus' decisions. Each public function carries a contract, and the `law_*` proof functions
  state the properties that hold across calls (what a lookup gives back after an insert,
  what a removal undoes, that the active proxy or provider is always a configured one, that
  a pid or a port written as text reads back, that URL normalisation is stable, ...).
- `app/` is the `crusty` program: command-line parsing, prompts and output, the JSON
  configuration file, npm and process handling, the SQLite store, the HTTP client of the
  agent and its tools. It hands plain values to the library and acts on what comes back.

`tests/` exercises the library on concrete values.
