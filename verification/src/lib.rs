//! The scripting layer of a small web browser: the rules by which Lua page
//! scripts reach page elements, print, report problems and make HTTP requests.

pub mod text;
pub mod problems;
pub mod elements;
pub mod tags;
pub mod printing;
pub mod fetch;
pub mod script;
