pub mod api;
pub mod auth;
pub mod biliteral;
pub mod canonical;
pub mod challenge;
pub mod exp;
pub mod models;
pub mod random;
pub mod scoring;
pub mod signature;
pub mod substitution;
pub mod text;
