//! Core of a terminal client for a torrent-index site: the typed result
//! model, the HTML result-extraction pipeline, the search-URL builder, and
//! the browse controller (input mode, pagination, sorting, selection).
//!
//! Network and terminal I/O live outside this crate; the functions here take
//! and return plain values and carry contracts for everything they decide.

pub mod controller;
pub mod extract;
pub mod marquee;
pub mod model;
pub mod text;
pub mod theme;
pub mod url;
