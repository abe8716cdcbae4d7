//! State and rules of an interactive terminal picker: three panels (a language
//! list, a listing of `.txt` files, an architecture list) and a text field for
//! the name of an output archive.
//!
//! Reading the keyboard, scanning the directory and drawing the panels are
//! left to the program around this library, which hands in plain values and
//! acts on what comes back.
//!
//! Everything here is verified with Verus, on three assumptions that are
//! stated where they are made: what `String::push` and `String::pop` do (in
//! [`text`]), and where `ratatui`'s layout puts the cuts of a split by
//! percentages (in [`layout`]).

pub mod layout;
pub mod scan;
pub mod screen;
pub mod selection;
pub mod session;
pub mod text;
