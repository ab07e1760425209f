//! The transit authority's feeds.

pub mod alerts;
pub mod analysis;
pub mod bustracker;
pub mod gtfs;
pub mod stations;
pub mod traintracker;
