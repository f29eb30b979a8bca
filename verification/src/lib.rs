pub mod app;
pub mod config;
pub mod doctor;
pub mod episodes;
pub mod extensions;
pub mod media;
pub mod progress;
pub mod race;
pub mod resolve;
pub mod text;
pub mod tmdb;
pub mod torznab;
pub mod ui;
pub mod validation;
