//! Rendering of a model's answer for a terminal while the answer is still
//! arriving.
//!
//! The answer comes in fragments of any size. The caller keeps the text
//! received so far and, for each fragment, asks what to write. Text between
//! lone backticks is emphasised; text behind a fence of three backticks is
//! code, highlighted line by line in the language that the fence names, until
//! the next fence. What is written depends on the text received so far and on
//! the newest fragment, and on nothing else: not on how the text was cut.
//!
//! - [`delimiter`] counts the backticks that open and close spans.
//! - [`mode`] resolves the render mode of a text from those counts.
//! - [`language`] selects the grammar that a fence names.
//! - [`highlight`] colours one line of code.
//! - [`render`] decides what to write for a fragment.
//! - [`stream`] states what holds of the mode while fragments arrive.
//! - [`text`] gives the characters and lines of a text.
//! - [`args`] and [`edit`] hold the program's arguments and the steps of its
//!   edit command.

pub mod args;
pub mod delimiter;
pub mod edit;
pub mod highlight;
pub mod language;
pub mod mode;
pub mod render;
pub mod stream;
pub mod text;
