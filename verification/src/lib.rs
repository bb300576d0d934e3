//! Rollout control for a single container workload.
//!
//! A deployment descriptor is decoded from a JSON payload, becomes an event
//! for the dispatcher, and the dispatcher answers with the calls that the
//! deploy backend has to make: a candidate is promoted only once it has
//! proved healthy, and the deployment before it is kept or restored until
//! then.

pub mod condo;
pub mod consul;
pub mod decode;
pub mod dispatcher;
pub mod docker;
pub mod encode;
pub mod event;
pub mod history;
pub mod human_uri;
pub mod json;
pub mod payload;
pub mod spec;
pub mod text;
pub mod utils;
