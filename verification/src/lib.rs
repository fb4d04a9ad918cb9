//! Verified core of an S3 terminal browser: connection settings, saved
//! configurations, key handling, the navigation state machine and the sizes
//! it shows.
pub mod text;
pub mod config;
pub mod s3;
pub mod form;
pub mod order;
pub mod picker;
pub mod model;
pub mod app;
pub mod laws;
pub mod download;
pub mod size;
pub mod display;
