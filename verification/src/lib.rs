//! An immediate-mode user interface core: cursor-based row and column layout,
//! hitboxes with hot and active widgets, per-identifier animations and a
//! per-frame input queue.
//!
//! An application draws each frame anew through a [`renderer::Renderer`]. The
//! renderer lays the shapes out, keeps what must outlive a frame, and records
//! commands for a drawing backend to replay. Positions and extents are whole
//! numbers of layout units, sixty-four to the pixel.

pub mod animation;
pub mod application;
pub mod color;
pub mod draw;
pub mod font;
pub mod hitbox;
pub mod input;
pub mod key;
pub mod label;
pub mod laws;
pub mod layout;
pub mod model;
pub mod padding;
pub mod renderer;
pub mod strings;
pub mod textinput;
pub mod units;
