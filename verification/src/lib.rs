//! A flat-rate / flat-cwnd congestion-control algorithm for the CCP runtime.
//!
//! The controller applies one static target per flow (a sending rate or a
//! congestion window), installs a measurement program on the datapath, and
//! decodes the reports that come back into a telemetry record.

pub mod config;
pub mod flow;
pub mod model;
pub mod portus_api;
pub mod program;

pub use config::CcpExampleConfig;
pub use config::CcpExampleConfigEnum;
pub use config::ConfigError;
pub use flow::CcpExample;
pub use flow::DecodeError;
pub use flow::Telemetry;
