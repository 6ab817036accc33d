//! Frame logic of a small arcade toy: a cat's hand that follows the pointer,
//! lunges at the spot that was clicked, and draws back before it is ready again.
//!
//! The crate holds everything about a frame that is decided over whole numbers:
//! the hand's three-state attack cycle, the point it seeks, the cues it sounds,
//! and the list of sprites to draw. Moving the hand is floating-point work and is
//! left to the caller, who reports back where the hand came to rest.

pub mod input;
pub mod state;
pub mod hand;
pub mod cycle;
pub mod sprite;
pub mod floor;
pub mod mouse;
pub mod draw;
pub mod frame;
