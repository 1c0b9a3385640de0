pub mod api;
pub mod calendar;
pub mod cli;
pub mod config;
pub mod console;
pub mod report;
pub mod season;
pub mod text;
pub mod weather;
