//! Decision core of a game-runtime provisioning launcher.
//!
//! The library holds the logic that decides what to download, how to detect
//! staleness, how to keep a private store and a public directory consistent,
//! and how to assemble the final launch command line. All file, network and
//! process work is left to the surrounding application, which feeds this
//! library plain values (names, sizes, flags) and carries out the plans it
//! returns.

pub mod errors;
pub mod fetch;
pub mod java;
pub mod launch;
pub mod layout;
pub mod mods;
pub mod sync;
pub mod text;
pub mod version;
