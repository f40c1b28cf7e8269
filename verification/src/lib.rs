//! Availability polling and notification cadence for a restock notifier.
//!
//! The library decides; the program around it performs the network and mail
//! traffic and hands the outcomes back as plain values.

pub mod browser;
pub mod clock;
pub mod config;
pub mod error;
pub mod mail;
pub mod notifier;
pub mod product;
pub mod provider;
pub mod scraping;
pub mod text;
