//! Reads the performance counters that a HotSpot JVM publishes in its `hsperfdata` file.
//!
//! A [`JvmMonitor`] holds an image of the perfdata of one JVM, an index of the counters in it and
//! the bindings of the counters that the high-level groups are made of. Whatever takes time or
//! touches the system is left to the caller: it maps the file, takes images of the mapping, looks
//! at the file system, and hands over what it sees. The library decides.
//!
//! - Connecting starts with [`JvmMonitor::connect`] and goes on image by image.
//! - [`JvmMonitor::refresh`] checks that the target is alive and takes in the counters that were
//!   published since. Long-running collectors call it once per sampling cycle, and
//!   [`JvmMonitor::sample`] after it.
//! - [`JvmMonitor::discover_all`] collects the Java processes that the caller comes across.

pub mod bindings;
pub mod bytes;
pub mod capture;
pub mod columns;
pub mod command;
pub mod compatibility;
pub mod connect;
pub mod discovery;
pub mod error;
pub mod index;
pub mod laws;
pub mod layout;
pub mod metrics;
pub mod monitor;
pub mod naming;
pub mod perfdata;
pub mod process;
pub mod reading;
pub mod refresh;
pub mod report;
pub mod showing;
pub mod stats;
pub mod target;
pub mod text;
pub mod upkeep;
pub mod wording;

pub use crate::compatibility::JvmCompatibility;
pub use crate::connect::{Captured, ConnectProgress, Connecting};
pub use crate::discovery::{Discovery, JavaProcessInfo};
pub use crate::error::JvmMonitorError;
pub use crate::metrics::{BuiltinLongMetric, MetricKeySource, MetricResolution};
pub use crate::monitor::{JvmMonitor, MetricHandle, MonitorHealth, PerfValue};
pub use crate::perfdata::PerfMemory;
pub use crate::refresh::{PendingRefresh, RefreshProgress};
pub use crate::stats::{
    ClassStats, CompilerNumericStats, CompilerStats, GcCollectorNumericStats, GcNumericStats,
    GcStats, JvmStatsSnapshot, Ratio, RuntimeStats,
};
pub use crate::target::{FileIdentity, FileKey, TargetIdentity, TargetObservation};
