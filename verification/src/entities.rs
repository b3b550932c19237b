//! The data model: plain records mirroring the remote service's JSON
//! contract, each with its wire encoding and decoding.
pub mod access;
pub mod account;
pub mod alert_subscription;
pub mod auth;
pub mod antenna;
pub mod collection_request;
pub mod elset;
pub mod filter;
pub mod groundstation;
pub mod image;
pub mod maneuver;
pub mod observation;
pub mod orbit_determination;
pub mod rf_observation;
pub mod satellite;
pub mod satellite_group;
pub mod task;
pub mod telescope;
pub mod weather;
