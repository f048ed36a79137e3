//! Feed pollers: the per-feed normalization of upstream records into events.

pub mod mesh_nodes;
pub mod nws_alerts;
pub mod usgs_quakes;
