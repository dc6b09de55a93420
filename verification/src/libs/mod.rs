pub mod config;
pub mod db;
pub mod model;
pub mod oid;
pub mod routes;
