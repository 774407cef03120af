//! Verified core of a smart-electricity-meter exporter.
//!
//! A meter reports quantities over a serial link as decoded protocol
//! entries, each keyed by a 6-byte object identifier. This library holds
//! the verified pipeline that turns those entries into gauge updates:
//! the immutable identifier catalog, the dispatcher that extracts a
//! numeric value and updates the metric sink, and the read-loop state
//! machine that tolerates per-entry and per-frame errors. Byte-level
//! frame decoding, the serial transport and the scrape server are
//! unverified collaborators that live outside this crate.

mod catalog;
mod config;
mod dispatch;
mod model;
mod read_loop;
mod sink;

pub use catalog::Catalog;
pub use catalog::Obi;
pub use catalog::ObiNames;
pub use catalog::get_lookup_map;
pub use catalog::lookup_obi_name;
pub use config::SerialConfig;
pub use dispatch::process;
pub use dispatch::register_exportable;
pub use model::DecodedEntry;
pub use model::Frame;
pub use model::RawValue;
pub use model::Unit;
pub use read_loop::LoopState;
pub use read_loop::ReadEvent;
pub use read_loop::step;
pub use sink::MetricSink;
