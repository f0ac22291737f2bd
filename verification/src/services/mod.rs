//! The diagnostic services: what each request looks like on the wire and
//! what is made of the answers.

pub mod ecu_reset;
pub mod logging;
pub mod realtime;
