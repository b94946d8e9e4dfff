//! Verified core of the usage deck app: the device tables and input decoding of the
//! AKP03 family, the button-assignment rules, the usage-poll decisions and
//! the text shown on the device and in the tray.

pub mod budget;
pub mod config;
pub mod deck;
pub mod device;
pub mod render;
pub mod text;
pub mod usage;
