//! A small manifest of audio tracks, the HTML page rendered from it, and the
//! aggregation of a reachability check over the tracks' URLs.

pub mod manifest;
pub mod render;
pub mod check;
pub mod cli;
