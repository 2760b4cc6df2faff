//! Reading progress and display rules of a terminal manga reader.

pub mod string_set;
pub mod string_map;
pub mod config;
pub mod text;
pub mod palette;
pub mod view;
pub mod layout;
