//! The protocol control information byte of ISO 15765-2.

use vstd::prelude::*;
use vstd::std_specs::convert::FromSpecImpl;

verus! {

/// The four frame kinds that the high nibble of the first byte selects.
#[derive(Debug, Clone, Copy, PartialEq, Eq, Structural)]
pub enum PciType {
    /// A message that fits in one frame; first byte `0x00..=0x0F`.
    SingleFrame,
    /// The start of a segmented message; first byte `0x10..=0x1F`.
    FirstFrame,
    /// A continuation of a segmented message; first byte `0x20..=0x2F`.
    ConsecutiveFrame,
    /// The receiver's pacing answer; first byte `0x30..=0x3F`.
    FlowControl,
}

impl PciType {
    /// The value of the high nibble that announces this kind.
    pub open spec fn nibble(self) -> u8 {
        match self {
            PciType::SingleFrame => 0u8,
            PciType::FirstFrame => 1u8,
            PciType::ConsecutiveFrame => 2u8,
            PciType::FlowControl => 3u8,
        }
    }
}

/// A frame kind together with the value carried in the low nibble.
#[derive(Debug, Clone, Copy)]
pub struct PciByte {
    /// The frame kind.
    pub pci_type: PciType,
    /// The value; only its low four bits reach the wire.
    pub value: u8,
}

/// The byte on the wire: the kind in the high nibble, the low four bits of
/// `value` in the low nibble.
pub open spec fn pci_byte(pci_type: PciType, value: u8) -> u8 {
    match pci_type {
        PciType::SingleFrame => value & 0x0F,
        PciType::FirstFrame => 0x10 | (value & 0x0F),
        PciType::ConsecutiveFrame => 0x20 | (value & 0x0F),
        PciType::FlowControl => 0x30 | (value & 0x0F),
    }
}

impl PciByte {
    /// Pairs a frame kind with a value.
    pub fn new(pci_type: PciType, value: u8) -> (r: Self)
        ensures
            r.pci_type == pci_type,
            r.value == value,
    {
        Self { pci_type, value }
    }

    /// The frame kind.
    pub fn get_type(&self) -> (r: PciType)
        ensures
            r == self.pci_type,
    {
        self.pci_type
    }

    /// The value as it was given, all eight bits of it.
    pub fn get_value(&self) -> (r: u8)
        ensures
            r == self.value,
    {
        self.value
    }

    /// The byte on the wire.
    pub fn as_byte(&self) -> (r: u8)
        ensures
            r == pci_byte(self.pci_type, self.value),
    {
        match self.pci_type {
            PciType::SingleFrame => self.value & 0x0F,
            PciType::FirstFrame => 0x10 | (self.value & 0x0F),
            PciType::ConsecutiveFrame => 0x20 | (self.value & 0x0F),
            PciType::FlowControl => 0x30 | (self.value & 0x0F),
        }
    }
}

impl From<PciByte> for u8 {
    fn from(pci_byte: PciByte) -> (r: u8) {
        pci_byte.as_byte()
    }
}

impl FromSpecImpl<PciByte> for u8 {
    open spec fn obeys_from_spec() -> bool {
        true
    }

    open spec fn from_spec(p: PciByte) -> u8 {
        pci_byte(p.pci_type, p.value)
    }
}

/// The wire byte splits back into its two halves: the high nibble is the
/// kind's selector and the low nibble is the value's low nibble.
pub proof fn lemma_pci_byte_nibbles(pci_type: PciType, value: u8)
    ensures
        pci_byte(pci_type, value) >> 4 == pci_type.nibble(),
        pci_byte(pci_type, value) & 0x0F == value & 0x0F,
        pci_byte(pci_type, value) as int == 16 * pci_type.nibble() + value % 16,
{
    assert((value & 0x0F) >> 4 == 0u8) by (bit_vector);
    assert((0x10u8 | (value & 0x0F)) >> 4 == 1u8) by (bit_vector);
    assert((0x20u8 | (value & 0x0F)) >> 4 == 2u8) by (bit_vector);
    assert((0x30u8 | (value & 0x0F)) >> 4 == 3u8) by (bit_vector);
    assert((value & 0x0F) & 0x0F == value & 0x0F) by (bit_vector);
    assert((0x10u8 | (value & 0x0F)) & 0x0F == value & 0x0F) by (bit_vector);
    assert((0x20u8 | (value & 0x0F)) & 0x0F == value & 0x0F) by (bit_vector);
    assert((0x30u8 | (value & 0x0F)) & 0x0F == value & 0x0F) by (bit_vector);
    assert(value & 0x0F == value % 16) by (bit_vector);
    assert((0x10u8 | (value & 0x0F)) == 16 + value % 16) by (bit_vector);
    assert((0x20u8 | (value & 0x0F)) == 32 + value % 16) by (bit_vector);
    assert((0x30u8 | (value & 0x0F)) == 48 + value % 16) by (bit_vector);
}

} // verus!
