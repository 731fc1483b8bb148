//! Verified rules and bookkeeping of a small 3D pong game: scoring and the
//! win condition, the serve generator, the HUD's digit glyphs, the mesh
//! topology of quads, paddles and the ball, keyboard handling, and the
//! per-frame decisions of the renderer.
pub mod frame;
pub mod game;
pub mod hud;
pub mod input;
pub mod mesh;
pub mod rng;
