pub mod application;
pub mod configuration;
pub mod db;
pub mod domain;
pub mod email_client;
pub mod routes;
pub mod settings;
pub mod text;
pub mod views;
