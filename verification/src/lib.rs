//! Recognition of touch swipes: a recognizer that reduces a stream of touch
//! samples to one displacement per completed gesture, and the rule that
//! decides which displacements count as a horizontal swipe.
//!
//! Coordinates are whole pixels of the surface. Every executable function
//! carries a contract, and the laws that relate several calls are proved in
//! [`user_input`].

pub mod android;
pub mod swipe;
pub mod touch;
pub mod user_input;
