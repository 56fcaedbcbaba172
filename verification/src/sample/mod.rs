//! The counter sample: a keypad action and a Stream Deck + dial sharing one count.
pub mod actions;
pub mod contracts;
pub mod store;
