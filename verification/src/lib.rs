pub mod text;
pub mod time;
pub mod json;
pub mod ids;
pub mod models;
pub mod adapters;
pub mod db;
pub mod commands;
