//! Basis: a library for tracking disaggregate costs (labor, resources,
//! currency) through a network of companies producing without profit.

pub mod num;
pub mod error;
pub mod access;
pub mod models;
pub mod cost_map;
pub mod costs;
pub mod time;
pub mod measure;
pub mod number;
pub mod transactions;
pub mod system;
pub mod laws;
