//! Verified core of the SkyWatch situational-awareness dashboard.
//!
//! - `models`: severities and the plain-valued records shared by every part.
//! - `pollers`: normalization of NWS alerts, USGS quakes and FL Mesh nodes.
//! - `services`: the poll cycle that decides each poller's next step.
//! - `db`: SQL text whose shape depends on its arguments.
//! - `routes`: the dashboard's HTML partials.
//! - `config`: command-line configuration.
//! - `text`: decimal rendering, case mapping, UTF-8 clipping.

pub mod config;
pub mod db;
pub mod models;
pub mod pollers;
pub mod routes;
pub mod services;
pub mod text;
