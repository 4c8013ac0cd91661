# konfctl

`konf`, the command line of the Konf conference platform, with its logic
verified by Verus.

- `src/` is the verified library: the data the API answers with, as plain
  values; every view the command line prints (as styled spans); proposal
  filtering and stable sorting; template variables; the tRPC URL and error
  conventions; login callbacks; agent-mode rules (guards, error classes,
  list caps); and the state machines behind the interactive screens (the
  inbox, the sponsor list and detail views, the pager). Contracts state
  what each function returns; proof functions state the laws that span
  several calls.
- `tests/` runs the library on concrete values.
- `app/` is the program around it: argument parsing, HTTP, the config file,
  prompts, the terminal screens and JSON output.
