# chess_gui

The logic of a graphical two-player chess client, verified with Verus.

- `src/model.rs` – plain values for pieces, squares, the engine's position
  (`GameView`) and its answers.
- `src/protocol.rs` – the turn protocol between a hosting and a joining
  client, the opening exchange of names, and the messages on the wire.
- `src/draw.rs` – board geometry, square colours, picture names, drawing
  steps and the text of the side panel.
- `src/game.rs` – the window's state and its decisions: what a mouse press
  selects, plays or promotes, how the links change on local and remote
  moves, and the drawing steps of the whole board.
- `app/` – the program around the library: the ggez window, the chess
  engine, the TCP link with its MessagePack encoding, and the pixel hit
  test. It drives the library step by step, following the `Action` that
  each call returns.
