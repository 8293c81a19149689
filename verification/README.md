# flair_bloom

The verified core of a burst-click desktop helper.

- `src/` — the library, proved with Verus:
  - `text` — character classes, ASCII case folding, decimal notation;
  - `stem` — cleaning the stem of an imported sound file;
  - `sound` — accepted formats and sizes, safe sound names, unique stored names;
  - `weburl` — parsed web addresses (parsing by the `url` crate);
  - `update` — GitHub proxy routing, configured endpoints, download progress,
    what an update check leads to;
  - `lock` — the single-update lock;
  - `key_id`, `profile` — keys and burst-rule profiles with their limits;
  - `dd` — codes of the DD virtual input SDK;
  - `clicker` — key and button numbering, hotkeys and clicking rounds.
- `tests/` — tests of the library.
- `app/` — the Tauri shell: commands, file system, network, input
  simulation and the Windows DLL bridge.

Outside crates: `url` is the parser behind `tauri::Url` (a re-export of
`url::Url`); the library calls it directly for web addresses. The other
crates in `Cargo.toml` serve `app/`.
