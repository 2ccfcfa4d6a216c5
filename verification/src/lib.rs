//! A half-open ("SYN") TCP port scanner's engine: building probe segments,
//! recognising replies in captured frames, driving one target's scan under a
//! bound on concurrent sends, and reporting the ports found open.

pub mod address;
pub mod cli;
pub mod config;
pub mod frame;
pub mod packet;
pub mod report;
pub mod results;
pub mod scan;
pub mod sender;
pub mod wire;
