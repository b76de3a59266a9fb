//! Verified core of a small network-attached environmental sensor node.
//!
//! The node polls a CO2/temperature/humidity sensor, keeps the most recent
//! reading in a single shared store, and serves that reading over a tiny
//! HTTP interface while a wireless link is held up underneath.  This crate
//! holds the logic that makes the device behave like a small server:
//!
//! * [`reading`] - the value type for one sensor snapshot;
//! * [`store`] - the single-writer / many-reader shared store and its
//!   interleaving model;
//! * [`poll`] - the decisions of the perpetual sensor poll loop;
//! * [`link`] - the network bring-up sequencer with its retry-forever
//!   association policy;
//! * [`http`] - request-line parsing and the fixed route table;
//! * [`response`] - response framing and the numeric payload serializer;
//! * [`worker`] - the connection worker state machine and the fixed-size
//!   worker pool.
//!
//! All hardware, radio, socket and timer traffic stays outside this crate;
//! the surrounding program performs those exchanges and feeds the outcomes
//! in as plain values.

pub mod http;
pub mod link;
pub mod poll;
pub mod reading;
pub mod response;
pub mod store;
pub mod worker;
