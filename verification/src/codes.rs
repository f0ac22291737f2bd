//! Service identifiers and negative response codes of ISO 14229.
//!
//! Which bytes are assigned is decided by the tables of the
//! `automotive_diag` crate; this module keeps a byte together with the
//! knowledge that the tables hold it.

use automotive_diag::uds::{UdsCommand, UdsError};
use vstd::prelude::*;

verus! {

/// Whether `UdsCommand::from_repr` knows `byte` as a service identifier.
pub uninterp spec fn is_service_id(byte: u8) -> bool;

/// Whether `UdsError::from_repr` knows `byte` as a negative response code.
pub uninterp spec fn is_response_code(byte: u8) -> bool;

/// Asks `automotive_diag::uds::UdsCommand::from_repr` whether it has a
/// service for `byte`. The answer depends on the byte alone and is what
/// [`is_service_id`] names.
#[verifier::external_body]
fn service_id_known(byte: u8) -> (r: bool)
    ensures
        r == is_service_id(byte),
{
    UdsCommand::from_repr(byte).is_some()
}

/// Asks `automotive_diag::uds::UdsError::from_repr` whether it has a
/// response code for `byte`. The answer depends on the byte alone and is
/// what [`is_response_code`] names.
#[verifier::external_body]
fn response_code_known(byte: u8) -> (r: bool)
    ensures
        r == is_response_code(byte),
{
    UdsError::from_repr(byte).is_some()
}

/// The byte of `UdsCommand::ECUReset`, which the crate declares as `0x11`
/// and which `from_repr` therefore knows.
#[verifier::external_body]
fn ecu_reset_byte() -> (r: u8)
    ensures
        r == 0x11,
        is_service_id(r),
{
    UdsCommand::ECUReset.into()
}

/// The byte of `UdsCommand::ReadDataByPeriodicIdentifier`, which the crate
/// declares as `0x2A` and which `from_repr` therefore knows.
#[verifier::external_body]
fn periodic_read_byte() -> (r: u8)
    ensures
        r == 0x2A,
        is_service_id(r),
{
    UdsCommand::ReadDataByPeriodicIdentifier.into()
}

/// The byte of `UdsError::RequestCorrectlyReceivedResponsePending`, which
/// the crate declares as `0x78` and which `from_repr` therefore knows.
#[verifier::external_body]
fn response_pending_byte() -> (r: u8)
    ensures
        r == 0x78,
        is_response_code(r),
{
    UdsError::RequestCorrectlyReceivedResponsePending.into()
}

/// The byte that marks a negative response in place of a service identifier.
pub const NEGATIVE_RESPONSE: u8 = 0x7F;

/// A service identifier that the tables know.
#[derive(Debug, Clone, Copy, PartialEq, Eq, Structural)]
pub struct ServiceId {
    byte: u8,
}

impl View for ServiceId {
    type V = u8;

    closed spec fn view(&self) -> u8 {
        self.byte
    }
}

impl ServiceId {
    #[verifier::type_invariant]
    spec fn known(self) -> bool {
        is_service_id(self.byte)
    }

    /// The identifier for `byte`, if the tables assign one.
    pub fn new(byte: u8) -> (r: Option<Self>)
        ensures
            r.is_some() == is_service_id(byte),
            r matches Some(id) ==> id@ == byte,
    {
        if service_id_known(byte) {
            Some(ServiceId { byte })
        } else {
            None
        }
    }

    /// ECUReset, `0x11`.
    pub fn ecu_reset() -> (r: Self)
        ensures
            r@ == 0x11,
    {
        ServiceId { byte: ecu_reset_byte() }
    }

    /// ReadDataByPeriodicIdentifier, `0x2A`.
    pub fn read_data_by_periodic_identifier() -> (r: Self)
        ensures
            r@ == 0x2A,
    {
        ServiceId { byte: periodic_read_byte() }
    }

    /// The identifier's byte.
    pub fn byte(&self) -> (r: u8)
        ensures
            r == self@,
            is_service_id(r),
    {
        proof {
            use_type_invariant(self);
        }
        self.byte
    }
}

/// A negative response code that the tables know.
#[derive(Debug, Clone, Copy, PartialEq, Eq, Structural)]
pub struct ResponseCode {
    byte: u8,
}

impl View for ResponseCode {
    type V = u8;

    closed spec fn view(&self) -> u8 {
        self.byte
    }
}

/// The code by which an ECU defers its answer:
/// RequestCorrectlyReceivedResponsePending.
pub const RESPONSE_PENDING: u8 = 0x78;

impl ResponseCode {
    #[verifier::type_invariant]
    spec fn known(self) -> bool {
        is_response_code(self.byte)
    }

    /// The code for `byte`, if the tables assign one.
    pub fn new(byte: u8) -> (r: Option<Self>)
        ensures
            r.is_some() == is_response_code(byte),
            r matches Some(code) ==> code@ == byte,
    {
        if response_code_known(byte) {
            Some(ResponseCode { byte })
        } else {
            None
        }
    }

    /// RequestCorrectlyReceivedResponsePending, `0x78`.
    pub fn response_pending() -> (r: Self)
        ensures
            r@ == RESPONSE_PENDING,
    {
        ResponseCode { byte: response_pending_byte() }
    }

    /// The code's byte.
    pub fn byte(&self) -> (r: u8)
        ensures
            r == self@,
            is_response_code(r),
    {
        proof {
            use_type_invariant(self);
        }
        self.byte
    }

    /// Whether the code defers the answer.
    pub fn is_pending(&self) -> (r: bool)
        ensures
            r == (self@ == RESPONSE_PENDING),
    {
        self.byte == response_pending_byte()
    }
}

} // verus!
