//! System-level functionality: voting agents, UBI parameters, and converting
//! costs to credits.

pub mod vote;
pub mod ubi;
pub mod credit_converter;
