//! Parsing and serialization of the CSS `border` family of shorthand
//! properties over a stream of already tokenized component values.

pub mod text;
pub mod keywords;
pub mod token;
pub mod parser;
pub mod color;
pub mod values;
pub mod rect;
pub mod shorthands;
pub mod image;
