//! Tigershark3: the logic of a command-line tracker of 3D asset versions.
//!
//! The library holds the data model of assets and versions, the rules that
//! decide which JSON keys each command needs, the masking of frame numbers in
//! file paths, and the decisions that each command takes between its database
//! queries. The program around it (argument parsing, JSON decoding, SQLite
//! access, printing) lives in `app/`.
pub mod assetdef;
pub mod errors;
pub mod frame_num;
pub mod parse_args;
pub mod text;
pub mod utils;
