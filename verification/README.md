# local_table

A riichi mahjong table that runs on one machine. The human player sits at seat 0, bots play the other
seats, and the `riichienv_core` engine keeps the rules. The table speaks the mjai protocol: every
event of the engine's log reaches each player as that player may see it.

- `src/` is the library, verified with Verus. It holds every decision of a game and performs no
  input or output: `LocalGame::advance`, `answer` and `submit` return what has to be done next.
- `tests/` runs the library with the real engine.
- `app/` is the service around it: bots as subprocesses, events on buses, requests and views as JSON.
  It finds and launches a bot for each seat, and refuses a start where that cannot be done.

The modules of the library:

| module | what it holds |
| --- | --- |
| `mode`, `text` | game modes, start requests, the choice of bots |
| `tile`, `bag`, `matching` | tile names, and which tile a name stands for |
| `action` | actions, their identifiers, the fallback |
| `event`, `log_line` | events, what a seat may see of them, lines of the engine's log |
| `response` | from a bot's answer to a legal action |
| `engine` | the rules engine, with what is taken on trust of it |
| `snapshot`, `view` | what the human player is shown |
| `table`, `manager`, `error` | the game, the one that is being played, and refusals |
| `laws`, `auto_laws`, `claim_laws`, `id_laws`, `tile_laws` | what holds of the table as a whole |
