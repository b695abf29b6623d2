# tetris

The rules of a small falling-blocks game, verified with Verus, and the window
program around them.

- `src/orientation.rs`: rotation states and the laws of turning a piece.
- `src/brick.rs`, `src/geometry.rs`: bricks, board and screen dimensions,
  pixel positions and the frame around the playing field.
- `src/brick_group.rs`: a piece's bricks per rotation state, its moves, its
  cells and its text description (`src/text.rs` writes the numbers).
- `src/shapes.rs`: the seven kinds of piece, their layouts, and drawing a
  random kind.
- `src/board.rs`: the board's cells, the bottom-row test and landing.
- `src/game.rs`: the game state, the event counter that paces the fall, and
  what each window event does.
- `app/main.rs`: the window, drawing and the event loop.
