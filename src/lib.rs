//! Control logic for a bank of relays driven over a Modbus RTU serial link.

pub mod protocol;
pub mod state;
pub mod bulk;
pub mod project;
pub mod slave;
pub mod controller;
pub mod paths;
