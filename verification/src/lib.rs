//! A small market economy driven frame by frame: lands produce, people
//! consume, a ledger of goods is settled once per frame, and a three-mode
//! controller (menu, playing, ended) decides what each frame does.

pub mod clock;
pub mod market;
pub mod lands;
pub mod people;
pub mod registry;
pub mod input;
pub mod stimulation;
pub mod session;
