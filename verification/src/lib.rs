//! Decoding of kernel network-interface attribute records (tag/length/value
//! lists) into typed link records, and rendering of those records in the
//! classic `ip link` text layout as well as structured JSON and YAML.
//!
//! The transport that obtains the raw attribute lists, and the process
//! plumbing around the renderer, live outside this crate; everything here is
//! pure computation over plain values.

pub mod bridge;
pub mod bridge_port;
pub mod color;
pub mod error;
pub mod jsonfmt;
pub mod link_details;
pub mod link_info;
pub mod rawdec;
pub mod result;
pub mod show;
pub mod names;
pub mod textfmt;
pub mod vlan;
pub mod wire;
