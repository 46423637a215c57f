# yt

A terminal client for YouTube. The library in `src/` holds its logic, proved
with Verus:

- `menu`, `ui`: the tabs, the state of the interface and the action each key
  asks for;
- `history`: the history and watch-later files (`title<>ID<>id<>CHAN<>channel`
  per line), with the proof that a written entry reads back unchanged;
- `unique`: dropping repeated videos or channels, keeping the first of each;
- `json`, `feeds`, `scrape`, `api`: reading videos and channels out of the
  JSON that YouTube serves, and the addresses of the Data API requests;
- `channel`: stored channels, merging fresh uploads into the stored ones;
- `friendly_panic`, `config_reader`, `commands`, `cache`, `text`, `video`:
  error texts, settings, paths and the string helpers they rest on.

`app/` is the program around it: reading files and the network, running the
player, and drawing the interface with `tui` and `ueberzug`.
