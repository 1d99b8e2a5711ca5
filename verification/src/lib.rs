//! Unattended client for keeping a host authenticated against a campus
//! captive-portal network: credential handling, machine-bound credential
//! protection, network-status classification, the portal login exchange,
//! off-hours suppression, and the orchestration decisions around them.

pub mod at_rest;
pub mod bind;
pub mod credential;
pub mod dns;
pub mod hexcode;
pub mod login;
pub mod network_changed;
pub mod off_hours_cache;
pub mod orchestrator;
pub mod password;
pub mod portal_text;
pub mod protection;
pub mod text;
