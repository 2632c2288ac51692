//! A model of a small real-time scene renderer.
//!
//! The crate describes, as plain data, everything a GPU backend needs in order
//! to draw one lit, textured mesh: buffer contents, bind-group layouts, the
//! fixed pipeline state and the commands of a frame.  A host program turns
//! those descriptions into device objects; the rules that make them agree with
//! one another are stated and proved here.
//!
//! Floating-point values are carried as their IEEE-754 bit patterns.

pub mod binding;
pub mod bits;
pub mod camera;
pub mod event;
pub mod fault;
pub mod layout;
pub mod material;
pub mod mesh;
pub mod pipeline;
pub mod shader;
pub mod state;
pub mod surface;
pub mod texture;
pub mod uniform;
pub mod words;
