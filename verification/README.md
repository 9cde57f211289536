# chesstui

Chess in the terminal — against the computer, two players at one
keyboard, or online through a small WebSocket server — with its logic
verified by Verus.

## Layout

- `src/` — the verified library.
  - `chess/` — squares, moves and positions; `cozy.rs` holds the calls into
    `cozy_chess` (move generation, FEN, hashing), each with its contract.
  - `game/` — game state with history and undo, SAN writing and reading
    (`san_laws.rs`: the SAN of a piece move reads back as that move), typed
    move input, saved games and their order.
  - `engine/` — evaluation, move ordering, alpha-beta search with a
    transposition table and quiescence, difficulty levels, playing
    personality, the opening book.
  - `ai.rs` — the small minimax opponent of "vs computer" games.
  - `app.rs`, `input.rs` — the application state and what every key does;
    outside work comes back as `Effect` values.
  - `network/` — the client's reaction to server messages, the stored session.
  - `server/` — game rooms, matchmaking, sign-in helpers, room commands.
  - `ui/` — what the screens compute: board highlights, the replay table,
    post-game texts, Kitty image transmission, text fitting.
- `tests/` — tests run against the compiled library.
- `app/` — the program: terminal loop, drawing with ratatui (pieces in 3D,
  and the board as a Kitty image when that is on), files under
  `~/.chesstui`, the network client and the server (sign-in codes are
  mailed through the Resend API).
