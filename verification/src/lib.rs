//! Verified models of a preemptive task-switching core and of the
//! register-level drivers around it.

pub mod assist_debug;
pub mod backtrace;
pub mod chip;
pub mod ecc;
pub mod efuse;
pub mod esp_now;
pub mod gpio;
pub mod interrupt;
pub mod laws;
pub mod machine;
pub mod mcp;
pub mod metadata;
pub mod modem_clock;
pub mod ota;
pub mod partitions;
pub mod rtc;
pub mod slot;
pub mod software;
pub mod task;
pub mod tick;
pub mod timg;
