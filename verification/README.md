# rl_discord_rpc

Shows what happens in Rocket League as Discord rich presence: the playlist,
the score, the arena's picture and, in ranked playlists, the player's rank.

`src/` is the verified library (Verus):

- `session` — the match state, how each Stats API event changes it and what
  outside work it calls for, and the presence shown for a state;
- `maps` — arena display names and the step-by-step search for an arena
  picture (static image, wiki files, image search, placeholder);
- `rank` — picking the rank out of a tracker profile, profile addresses and
  the per-session memory of rank answers;
- `playlist`, `config`, `launcher`, `cache`, `encoding`, `text` — playlist
  tables, settings, the launcher wrapper's choice of program, the keyed
  cache, percent-encoding (by `urlencoding`) and text helpers.

`app/` holds the program around it: the Stats API client, Discord IPC, HTTP
requests, the settings file, the clock and the launcher wrapper (run when
the program is started under the name `rl_rpc_wrapper`).
