//! Frame bookkeeping, input filtering, texture registry and draw-list
//! batching for an immediate-mode GUI overlay rendered by a game engine.
pub mod draw;
pub mod frame;
pub mod input;
pub mod texture;
