//! A bounded, flush-aware bridge between an external producer and a single
//! cooperatively scheduled consumer that forwards items downstream.

pub mod items;
pub mod channel;
pub mod prelude;
pub mod element;
pub mod laws;
