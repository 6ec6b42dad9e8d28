//! Verified core of a market-data sonification service.
//!
//! Price ticks flow from an ingestion adapter into the indicator state of
//! their asset; the metrics derived from it pick a composition style and
//! musical parameters, and the rendered packets are fanned out to
//! subscribers. This crate holds what in that flow is decided by discrete
//! rules:
//!
//! - `window`, `indicators`: the sliding sample windows and the state that
//!   the indicators of one asset are derived from;
//! - `chart`, `endpoints`, `ingest`: the choice of the latest complete
//!   datapoint of a chart response, the addresses of the feeds, and the
//!   retry state machines of the two adapters;
//! - `styles`, `mapping`: the style table and the discrete choices of the
//!   mapping to musical parameters;
//! - `hub`, `board`, `registry`, `pipeline`: the per-asset broadcast
//!   channels, the board of latest metrics, the registry that owns both,
//!   and the decisions of the pipeline and of a subscriber's loop;
//! - `models`: the plain data that the others share.
//!
//! Sample values are generic (`T`): the crate stores, orders and passes
//! them on, and never computes with them.

pub mod board;
pub mod chart;
pub mod endpoints;
pub mod hub;
pub mod indicators;
pub mod ingest;
pub mod mapping;
pub mod models;
pub mod pipeline;
pub mod registry;
pub mod styles;
pub mod window;
