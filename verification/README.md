# hyprquery

Query values from Hyprland (hypr*) configuration files:
`hyprquery CONFIG -Q 'general:border_size[INT][^[0-9]+$]'`.

- `src/` is the verified library: query syntax, type and regex filters,
  resolution of `$variable` queries, output rendering (plain, env, JSON
  text through serde_json), the walk over `source` directives as a state
  machine with cycle detection, path text handling, schema defaults, the
  `--get-defaults` listing and the help screen. Contracts are checked by
  Verus.
- `app/` is the command-line program around it: clap arguments, file
  system access (reading, globbing, canonical paths), the hyprlang parser,
  the serde copies of the schema types and standard output.
- `tests/` exercises the library on concrete inputs.
