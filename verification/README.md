# pong3d

A first-person 3D pong game. The crate splits in two:

- `src/` is a Verus-verified library holding the game's discrete logic:
  the match rules and win condition (`game`), the xorshift32 serve
  generator (`rng`), the score digits and seven-segment glyphs of the HUD
  (`hud`), the triangle topology of quads, paddles and the ball sphere
  (`mesh`), keyboard handling (`input`) and the renderer's per-frame
  decisions (`frame`).
- `app/` is the program around it: the window and event loop (winit), the
  GPU renderer (wgpu), and the f32 physics and geometry (glam). It takes
  the discrete decisions above from the library; what rests on f32 values
  (the AI paddle's target, collisions, goal-plane crossings, colours and
  positions) and the event-loop plumbing (when to refresh the title) it
  decides itself.

`tests/` exercises the library on concrete values.
