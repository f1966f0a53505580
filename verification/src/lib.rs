pub mod alert;
pub mod analysis;
pub mod anomaly;
pub mod cache;
pub mod config;
pub mod datasource;
pub mod decimal;
pub mod db;
pub mod health;
pub mod limit;
pub mod logging;
pub mod text;
