//! Drives a 4-bit HD44780-class character LCD through an MCP23008-class
//! I2C GPIO expander.
//!
//! The library holds the protocol: which GPIO-register bytes go out, in what
//! order, and with which settle delays between them. The I2C transport and the
//! delay provider stay with the caller, who performs each [`transfer::Action`]
//! that a state machine hands out and reports back how it went.
pub mod layout;
pub mod encode;
pub mod error;
pub mod init;
pub mod laws;
pub mod transfer;
