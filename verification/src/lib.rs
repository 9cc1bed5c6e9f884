//! Keyboard events turned into text.
//!
//! An input device reports what its keys do as a stream of fixed-size binary
//! records. This library decodes one record at a time ([`event`]), keeps count of
//! the Shift keys that are held ([`modifier`]), finds the text that stands for a
//! pressed key ([`keymap`]), and says for each record what a logging loop is to
//! do about it ([`pipeline`]). It opens no device and writes no log: the caller
//! owns both streams.

pub mod event;
pub mod keymap;
pub mod modifier;
pub mod pipeline;
pub mod wire;
