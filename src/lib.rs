//! A directory listing: the records built from what the operating system
//! reports for each child of a directory, and the two ways of showing them,
//! a coloured table and a JSON array.

pub mod date;
pub mod entry;
pub mod json;
pub mod present;
pub mod table;
pub mod text;
