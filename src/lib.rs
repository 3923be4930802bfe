// Telemetry aggregation for a hardware dashboard: the sensor report model, the
// rolling series, the per-device topology, the derived figures and the polling
// cycle. Readings are fixed-point integers in thousandths of their unit.

pub mod arith;
pub mod config;
pub mod cpu;
pub mod decode;
pub mod gauge;
pub mod gpu;
pub mod layout;
pub mod network;
pub mod poll;
pub mod ram;
pub mod report;
pub mod series;
pub mod storage;
pub mod style;
pub mod system;
pub mod text;
