pub mod gpu;
pub mod text;
pub mod fan_curve;
pub mod anime;
pub mod anime_config;
pub mod anime_engine;
pub mod capability;
pub mod controller;
pub mod cli;
pub mod platform;
