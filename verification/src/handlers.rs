//! Instruction handlers.

pub mod make_offer;
