//! Verified core of a snipping tool: capture modes, command-line parsing,
//! activation requests, the screenshot cache rules, desktop geometry,
//! pixel cropping and the application's state machine.

pub mod output_selection;
pub mod text;
pub mod cli;
pub mod display;
pub mod cache;
pub mod raster;
pub mod capture;
pub mod image_ops;
pub mod activation;
pub mod delivery;
pub mod locations;
pub mod model;
