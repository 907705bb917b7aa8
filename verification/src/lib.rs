//! A static-site composition library: structured data trees with a verified
//! deep merge, render-node trees that compose template fragments, and a site
//! generator that plans which output file holds which rendered page.

pub mod data;
pub mod engine;
pub mod generator;
pub mod render;
pub mod store;
