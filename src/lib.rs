//! Arbitration between wired and wireless links: while any Ethernet link is
//! active, WiFi radios are powered off; once none is, they are powered on again.

pub mod interface;
pub mod registry;
pub mod arbiter;
pub mod laws;
