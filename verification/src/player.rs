//! The player's text interfaces: the system console, the welcome prompt,
//! the star map and the in-world labels.
pub mod interaction;
pub mod label_update;
pub mod setup;
pub mod starmap;
