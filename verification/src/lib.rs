pub mod errors;
pub mod permissions;
pub mod text;
pub mod config;
pub mod clock;
pub mod auth;
pub mod user;
pub mod claims;
pub mod dto;
pub mod models;
pub mod store;
pub mod service;
pub mod resolver;
