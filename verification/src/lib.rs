//! Verified core of the spindle monitoring backend.
//!
//! - `sql`, `api`, `ch_writer`: the text the backend sends to ClickHouse
//!   (read queries, insert statements, request URLs) and the shaping of the
//!   answers of the read endpoints;
//! - `calibration`: the rolling sample window of the online calibrator;
//! - `alert`: which alerts a sensor reading raises, and in what order;
//! - `mqtt`: the decisions of the MQTT subscriber and alert publisher loops.

pub mod alert;
pub mod api;
pub mod calibration;
pub mod ch_writer;
pub mod mqtt;
pub mod sql;
