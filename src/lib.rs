//! A live motion dashboard: timestamped three-axis readings flow from a
//! channel into a bounded history, from which gauges and chart series are
//! derived on every tick of the render loop.

pub mod reading;
pub mod ring;
pub mod history;
pub mod channel;
pub mod app;
pub mod dashboard;
pub mod terminal;
