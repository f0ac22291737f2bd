//! What can go wrong between a request and its answer.

use crate::codes::{ResponseCode, ServiceId};
use crate::frame::FrameError;
use crate::pci::PciType;
use vstd::prelude::*;

verus! {

/// A failed diagnostic request.
#[derive(Debug, PartialEq)]
#[allow(inconsistent_fields)]
pub enum DiagError {
    /// The server does not support the request. Also what a response slot
    /// holds before anything has arrived.
    NotSupported,
    /// The ECU answered with a negative response.
    ECUError {
        /// The reason the ECU gave.
        code: ResponseCode,
        /// The service that was requested.
        rsid: ServiceId,
        /// A description of the reason, where one is at hand.
        def: Option<String>,
    },
    /// The ECU did not answer with anything.
    EmptyResponse,
    /// The ECU answered, but not to this request.
    WrongMessage {
        /// The service identifier that was awaited, where one is known.
        want: Option<u8>,
        /// The service identifier that came, if the frame carries one.
        received: Option<u8>,
    },
    /// The ECU answered with another kind of frame.
    WrongPciType {
        /// The kind that was awaited.
        want: PciType,
        /// The kind that came.
        received: PciType,
    },
    /// The diagnostic server is not running.
    ServerNotRunning,
    /// The answer does not have the announced length, or its frames are out
    /// of sequence.
    InvalidResponseLength,
    /// An argument is not valid.
    ParameterInvalid,
    /// The channel could not send.
    ChannelError,
    /// The hardware failed.
    HardwareError,
    /// The named feature is not implemented.
    NotImplemented(String),
    /// The answer is about another data identifier.
    MismatchedIdentResponse {
        /// The identifier that was asked for.
        want: u16,
        /// The identifier that came.
        received: u16,
    },
    /// No answer came in time.
    Timeout,
    /// What arrived is no frame.
    FrameError {
        /// Why it is none.
        error: FrameError,
    },
    /// Any other fault.
    Other,
}

/// What a [`DiagError`] holds.
#[allow(inconsistent_fields)]
pub ghost enum DiagErrorView {
    NotSupported,
    ECUError { code: u8, rsid: u8, def: Option<Seq<char>> },
    EmptyResponse,
    WrongMessage { want: Option<u8>, received: Option<u8> },
    WrongPciType { want: PciType, received: PciType },
    ServerNotRunning,
    InvalidResponseLength,
    ParameterInvalid,
    ChannelError,
    HardwareError,
    NotImplemented(Seq<char>),
    MismatchedIdentResponse { want: u16, received: u16 },
    Timeout,
    FrameError { error: FrameError },
    Other,
}

impl View for DiagError {
    type V = DiagErrorView;

    open spec fn view(&self) -> DiagErrorView {
        match self {
            DiagError::NotSupported => DiagErrorView::NotSupported,
            DiagError::ECUError { code, rsid, def } => DiagErrorView::ECUError {
                code: code@,
                rsid: rsid@,
                def: match def {
                    Some(s) => Some(s@),
                    None => None,
                },
            },
            DiagError::EmptyResponse => DiagErrorView::EmptyResponse,
            DiagError::WrongMessage { want, received } => DiagErrorView::WrongMessage {
                want: *want,
                received: *received,
            },
            DiagError::WrongPciType { want, received } => DiagErrorView::WrongPciType {
                want: *want,
                received: *received,
            },
            DiagError::ServerNotRunning => DiagErrorView::ServerNotRunning,
            DiagError::InvalidResponseLength => DiagErrorView::InvalidResponseLength,
            DiagError::ParameterInvalid => DiagErrorView::ParameterInvalid,
            DiagError::ChannelError => DiagErrorView::ChannelError,
            DiagError::HardwareError => DiagErrorView::HardwareError,
            DiagError::NotImplemented(name) => DiagErrorView::NotImplemented(name@),
            DiagError::MismatchedIdentResponse { want, received } => {
                DiagErrorView::MismatchedIdentResponse { want: *want, received: *received }
            },
            DiagError::Timeout => DiagErrorView::Timeout,
            DiagError::FrameError { error } => DiagErrorView::FrameError { error: *error },
            DiagError::Other => DiagErrorView::Other,
        }
    }
}

impl Clone for DiagError {
    fn clone(&self) -> (r: Self)
        ensures
            r@ == self@,
    {
        match self {
            DiagError::NotSupported => DiagError::NotSupported,
            DiagError::ECUError { code, rsid, def } => DiagError::ECUError {
                code: *code,
                rsid: *rsid,
                def: match def {
                    Some(s) => Some(s.clone()),
                    None => None,
                },
            },
            DiagError::EmptyResponse => DiagError::EmptyResponse,
            DiagError::WrongMessage { want, received } => DiagError::WrongMessage {
                want: *want,
                received: *received,
            },
            DiagError::WrongPciType { want, received } => DiagError::WrongPciType {
                want: *want,
                received: *received,
            },
            DiagError::ServerNotRunning => DiagError::ServerNotRunning,
            DiagError::InvalidResponseLength => DiagError::InvalidResponseLength,
            DiagError::ParameterInvalid => DiagError::ParameterInvalid,
            DiagError::ChannelError => DiagError::ChannelError,
            DiagError::HardwareError => DiagError::HardwareError,
            DiagError::NotImplemented(name) => DiagError::NotImplemented(name.clone()),
            DiagError::MismatchedIdentResponse { want, received } => {
                DiagError::MismatchedIdentResponse { want: *want, received: *received }
            },
            DiagError::Timeout => DiagError::Timeout,
            DiagError::FrameError { error } => DiagError::FrameError { error: *error },
            DiagError::Other => DiagError::Other,
        }
    }
}

} // verus!
