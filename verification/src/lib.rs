//! Now-playing metadata read out of the memory of a running music player.
//!
//! The crate walks pointer chains through a foreign address space, decodes
//! wide-character strings found there, assembles a snapshot of the song that
//! is playing, and decides from one snapshot to the next what has to be
//! published. Its functions carry contracts that Verus proves; what is taken
//! on trust from code outside the crate is marked where it stands.

pub mod memory;
pub mod reader;
pub mod text;
pub mod song_info;
pub mod config;
pub mod poll;
pub mod output;
pub mod cli;
pub mod lyrics;
pub mod render;
pub mod process;
