//! Core of a Unified Diagnostic Services (ISO 14229) client that talks to an
//! ECU over CAN with the ISO 15765-2 transport protocol.
//!
//! The crate holds the protocol logic only: the frame codec, the response
//! slot with its pending-retry rule, and the multi-frame receive machine.
//! Waiting, timers and the CAN driver belong to the caller.

pub mod client;
pub mod codec_laws;
pub mod codes;
pub mod error;
pub mod frame;
pub mod pci;
pub mod response;
pub mod services;
pub mod slot_laws;
pub mod socket_can;
pub mod transport;
pub mod transport_laws;

pub use client::UdsClient;
pub use codes::{ResponseCode, ServiceId};
pub use error::DiagError;
pub use frame::{
    FrameError, UdsConsecutiveFrame, UdsFirstFrame, UdsFlowControlFrame, UdsFrame,
    UdsNegativeResponse, UdsSingleFrame,
};
pub use pci::{PciByte, PciType};
pub use response::{Response, ResponseSlot};
pub use services::realtime::RealTimeType;
pub use socket_can::{CanSocketRx, CanSocketTx};
pub use transport::{MultiFrameReceiver, ReceiveStep};
