//! Columnar snapshots of moving agents.
//!
//! An [`Entity`](model::Entity) is an agent with a position and a list of
//! tasks. The encoder turns an ordered sequence of entities into a
//! [`ColumnarBatch`](batch::ColumnarBatch) with a fixed five-column layout,
//! and the service module decides, step by step, how one snapshot call
//! streams such a batch: the layout first, then the rows in order.

pub mod model;
pub mod schema;
pub mod text;
pub mod batch;
pub mod encode;
pub mod stream;
pub mod service;
