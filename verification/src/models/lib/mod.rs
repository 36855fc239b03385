pub mod basis_model;
pub mod agent;
