//! Protocol logic of a bridge between an order intake service and a
//! directly attached device that speaks line-delimited JSON.

pub mod text;
pub mod json;
pub mod models;
pub mod wire;
pub mod framing;
pub mod serial_comm;
