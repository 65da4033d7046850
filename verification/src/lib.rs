//! Chess position analysis over the Universal Chess Interface.
//!
//! An analysis has three steps. The commands for a position and a search
//! depth are built from the options that a backend declares (`backends`).
//! The backend runs them on an engine, here or on a remote service; that is
//! outside work, of which the library decides only what goes out and what
//! the report that comes back amounts to (`backends`). The transcript that
//! the engine wrote is then interpreted, and yields an evaluation of the
//! position or the error of the first line that does not keep to the
//! protocol (`analysis`).
//!
//! The contracts are stated over sequences of characters: `text` and
//! `number` define words, lines and decimal numbers, `chess` the moves in
//! the notation of the protocol. The rules of chess themselves are asked of
//! the `shakmaty` crate (`chess`).

pub mod analysis;
pub mod backends;
pub mod chess;
pub mod number;
pub mod opts;
pub mod text;
