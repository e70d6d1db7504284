//! Control nucleus of a small radio beacon: the trigger bus, the operational
//! state machine, the telemetry payload and the producers' decisions, all as
//! plain values with proved contracts.

pub mod ble;
pub mod button;
pub mod bytes;
pub mod clock;
pub mod color;
pub mod error;
pub mod framing;
pub mod gps;
pub mod http;
pub mod infra;
pub mod light;
pub mod logic;
pub mod message;
pub mod telemetry;
