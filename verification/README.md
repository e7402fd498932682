# Miru desktop client

The client watches osu!stable for new replays, sends the ones that pass the
player's filters to be rendered, and can lend its own machine as a renderer.

- `src/` is the library: the rules of the client, each with a contract that
  Verus proves. It reads replays, beatmaps and the beatmap database of the
  game, decides which replays are rendered, checks settings, releases, jobs and
  transfers, and speaks the protocol of the worker socket. What it takes from
  outside crates (`serde_json`, `url`, `sha2`, `md5`, `hex`, `base64`,
  `semver`) stands behind small wrappers whose contracts say what is believed
  of them.
- `tests/` runs the library on concrete values.
- `app/` is the program around it: files, network, processes, the window and
  the tray. It holds what floating point, chance, time and the machine decide,
  and hands the library plain values.

Numbers with a fraction cross into the library by their bits (`types::Double`);
the library orders and compares them, and never computes with them.
