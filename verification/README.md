# starail

Starail is a small Linux terminal client for a local `mihomo` core: it
installs and runs the core, keeps Clash/mihomo profiles and subscriptions,
lists, tests and selects proxies through mihomo's external controller, and
writes shell proxy variables into `~/.bashrc`. Without arguments it opens a
terminal interface.

## Layout

- `src/` is the library, written and proved with Verus. It holds the logic:
  the config and its normalization, the paths under `~/.starail`, profile
  metadata and the sorted profile list, subscription decoding (base64,
  share-link detection, provider refusals) and naming, the runtime config
  built from a profile, pid files and stop decisions, the status snapshot and
  the choice of the group and node it shows, the shell proxy block, the
  controller's requests and answers, and the terminal interface as a state
  machine: pages, how each key moves between them, and what each page shows.
  Calls into `serde_json`, `serde_yaml`, `unicode-width`, `urlencoding` and
  `flate2` stand behind small trusted wrappers whose contracts say what the
  library relies on.
- `app/` is the program around it: command-line parsing, files, processes,
  HTTP, the terminal, and drawing. It asks the library what to do and what to
  show, and does the work the library cannot.
- `tests/` runs the library on concrete values.
