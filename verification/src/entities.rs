//! Session entities: the live schedule being viewed and edited.

pub mod schedule;

pub use schedule::Schedule;
