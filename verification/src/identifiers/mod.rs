//! The naming conventions, one module for each family of missions.
pub mod landsat;
pub mod sentinel2;
pub mod sentinel3;
