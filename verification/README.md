# deadlock_rpc

Discord Rich Presence for Deadlock: the game's console log is followed, each
line updates a model of the game (phase, match mode, hero, map, party), and a
presence card is planned from that model and the user's `config.toml`.

The library under `src/` holds that logic with its contracts and laws, proved
with Verus:

- `game_state`: the game model, its transitions and the status line of each phase;
- `log_patterns`, `log_watcher`: what each log line does to the model, the replay
  of a log tail, the decisions of the polling loop, and the lines of the log bytes;
- `presence`: when the card is refreshed, and what it shows;
- `hero_api`: hero names to query, API replies, and the cache of resolved heroes;
- `config`, `merge_laws`: the settings, `{name}` templates, and filling a
  user's file from the defaults (proved over the documents that the TOML
  texts parse to; writing the patched document back as text is trusted);
- `updater`: release versions, the platform's asset and the start-up update check;
- `launcher`, `process_guard`, `tray`: launch arguments and shortcut texts, the
  game's process, and the tray icon's pixels;
- `text`, `numbers`: character-level text and decimal numbers.

`app/` is the program around it: files, processes, HTTP, Discord IPC, dialogs
and the tray.
