//! Verified core of The Silent Reach: procedural universe addressing,
//! star hashing, discovery bookkeeping and the console and launch logic.
pub mod launch;
pub mod persistence;
pub mod player;
pub mod text;
pub mod universe;
