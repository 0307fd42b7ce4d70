//! Bridge configuration of BridgeHub Westend towards Rococo.

pub mod bridge_config;
pub mod congestion;
pub mod xcm_model;
