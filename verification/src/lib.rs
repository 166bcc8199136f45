//! The verified core of a desktop shell that shows a browser's frames over a
//! player's video.
//!
//! The heart of it is the frame pipeline: a pool of reusable pixel buffers
//! that the render callback fills (`pool`, `producer`), the frames and their
//! queue (`frame`, `queue`), the copy of a changed region (`geometry`,
//! `blit`), and the decisions of the consumer that uploads the frames to a
//! texture once per tick (`stage`, `fps`).
//!
//! Around it stand the rules of the shell that need no window to be told:
//! what of the pointer and the keyboard is forwarded (`input`), which
//! requests of the page are known (`ipc`), how titles and stream ids are read
//! and where the catalogue answers (`media`, `catalogue`, `text`), the kinds
//! of the player's properties (`player`), the presence shown to others
//! (`presence`), the pixels of the tray icon (`icon`) and the name of the
//! processor (`hardware`).

pub mod blit;
pub mod catalogue;
pub mod fps;
pub mod frame;
pub mod geometry;
pub mod hardware;
pub mod icon;
pub mod input;
pub mod ipc;
pub mod media;
pub mod player;
pub mod pool;
pub mod presence;
pub mod producer;
pub mod queue;
pub mod stage;
pub mod text;
