//! The ISO 15765-2 frame codec: four transport frames and the negative
//! response, each with its layout on the wire.

use crate::codes::{is_response_code, is_service_id, ResponseCode, ServiceId, NEGATIVE_RESPONSE};
use crate::pci::PciType;
use vstd::prelude::*;

verus! {

/// Why a frame could not be encoded or decoded.
#[derive(Debug, Clone, Copy, PartialEq, Eq, Structural)]
pub enum FrameError {
    /// The high nibble of the first byte names no frame kind.
    InvalidFrameType,
    /// The frame is shorter than its kind needs, or its payload is too long
    /// to encode.
    InvalidSize,
    /// The requested service of a negative response is unknown.
    InvalidSid,
    /// The code of a negative response is unknown.
    InvalidNrc,
    /// No bytes at all, or more payload than a frame can be built with.
    InvalidCanLength,
    /// Any other fault.
    Others,
}

/// A negative response: the ECU refuses or defers a request.
#[derive(Debug, Clone, Copy, PartialEq, Eq, Structural)]
pub struct UdsNegativeResponse {
    /// The length nibble; only the low four bits reach the wire.
    pub size: u8,
    /// The service that was requested.
    pub rsid: ServiceId,
    /// The reason.
    pub nrc: ResponseCode,
}

/// A message that fits in one frame.
#[derive(Debug, PartialEq)]
pub struct UdsSingleFrame {
    /// The length nibble; only the low four bits reach the wire.
    pub size: u8,
    /// The service identifier.
    pub sid: u8,
    /// The data identifier, where the service has one.
    pub did: Option<u16>,
    /// The data that follows.
    pub payload: Vec<u8>,
}

/// The start of a segmented message.
#[derive(Debug, PartialEq)]
pub struct UdsFirstFrame {
    /// The length of the whole message; only the low twelve bits reach the
    /// wire.
    pub size: u16,
    /// The service identifier.
    pub sid: u8,
    /// The data identifier, where the service has one.
    pub did: Option<u16>,
    /// The first part of the data.
    pub payload: Vec<u8>,
}

/// A continuation of a segmented message.
#[derive(Debug, PartialEq)]
pub struct UdsConsecutiveFrame {
    /// The sequence number; only the low four bits reach the wire.
    pub seq_num: u8,
    /// The next part of the data.
    pub payload: Vec<u8>,
}

/// The receiver's answer to a first frame.
#[derive(Debug, PartialEq)]
pub struct UdsFlowControlFrame {
    /// 0 continue to send, 1 wait, 2 overflow; only the low four bits reach
    /// the wire.
    pub flag: u8,
    /// How many consecutive frames may follow before the next flow control;
    /// 0 for no limit.
    pub block_size: u8,
    /// The least time between consecutive frames.
    pub separation_time: u8,
    /// Bytes that fill the frame up.
    pub padding: Vec<u8>,
}

/// Any frame.
#[derive(Debug, PartialEq)]
pub enum UdsFrame {
    Single(UdsSingleFrame),
    First(UdsFirstFrame),
    Consecutive(UdsConsecutiveFrame),
    FlowControl(UdsFlowControlFrame),
    NegativeResp(UdsNegativeResponse),
}

/// What a [`UdsNegativeResponse`] holds.
pub ghost struct NegativeResponseView {
    pub size: u8,
    pub rsid: u8,
    pub nrc: u8,
}

/// What a [`UdsSingleFrame`] holds.
pub ghost struct SingleFrameView {
    pub size: u8,
    pub sid: u8,
    pub did: Option<u16>,
    pub payload: Seq<u8>,
}

/// What a [`UdsFirstFrame`] holds.
pub ghost struct FirstFrameView {
    pub size: u16,
    pub sid: u8,
    pub did: Option<u16>,
    pub payload: Seq<u8>,
}

/// What a [`UdsConsecutiveFrame`] holds.
pub ghost struct ConsecutiveFrameView {
    pub seq_num: u8,
    pub payload: Seq<u8>,
}

/// What a [`UdsFlowControlFrame`] holds.
pub ghost struct FlowControlFrameView {
    pub flag: u8,
    pub block_size: u8,
    pub separation_time: u8,
    pub padding: Seq<u8>,
}

/// What a [`UdsFrame`] holds.
pub ghost enum FrameView {
    Single(SingleFrameView),
    First(FirstFrameView),
    Consecutive(ConsecutiveFrameView),
    FlowControl(FlowControlFrameView),
    NegativeResp(NegativeResponseView),
}

impl View for UdsNegativeResponse {
    type V = NegativeResponseView;

    open spec fn view(&self) -> NegativeResponseView {
        NegativeResponseView { size: self.size, rsid: self.rsid@, nrc: self.nrc@ }
    }
}

impl View for UdsSingleFrame {
    type V = SingleFrameView;

    open spec fn view(&self) -> SingleFrameView {
        SingleFrameView { size: self.size, sid: self.sid, did: self.did, payload: self.payload@ }
    }
}

impl View for UdsFirstFrame {
    type V = FirstFrameView;

    open spec fn view(&self) -> FirstFrameView {
        FirstFrameView { size: self.size, sid: self.sid, did: self.did, payload: self.payload@ }
    }
}

impl View for UdsConsecutiveFrame {
    type V = ConsecutiveFrameView;

    open spec fn view(&self) -> ConsecutiveFrameView {
        ConsecutiveFrameView { seq_num: self.seq_num, payload: self.payload@ }
    }
}

impl View for UdsFlowControlFrame {
    type V = FlowControlFrameView;

    open spec fn view(&self) -> FlowControlFrameView {
        FlowControlFrameView {
            flag: self.flag,
            block_size: self.block_size,
            separation_time: self.separation_time,
            padding: self.padding@,
        }
    }
}

impl View for UdsFrame {
    type V = FrameView;

    open spec fn view(&self) -> FrameView {
        match self {
            UdsFrame::Single(f) => FrameView::Single(f@),
            UdsFrame::First(f) => FrameView::First(f@),
            UdsFrame::Consecutive(f) => FrameView::Consecutive(f@),
            UdsFrame::FlowControl(f) => FrameView::FlowControl(f@),
            UdsFrame::NegativeResp(f) => FrameView::NegativeResp(f@),
        }
    }
}

/// The most payload a single or a consecutive frame is encoded with.
pub const MAX_SINGLE_PAYLOAD: usize = 7;

/// The most payload a first frame is encoded with.
pub const MAX_FIRST_PAYLOAD: usize = 6;

/// The bytes of a negative response.
pub const NEGATIVE_RESPONSE_LEN: usize = 4;

/// The most padding a flow control frame is built with.
pub const MAX_PADDING: usize = 5;

/// The high byte of a 16-bit value.
pub open spec fn high_byte(x: u16) -> u8 {
    (x >> 8) as u8
}

/// The low byte of a 16-bit value.
pub open spec fn low_byte(x: u16) -> u8 {
    (x & 0xFF) as u8
}

/// The two bytes of a data identifier, high byte first.
pub open spec fn did_bytes(did: Option<u16>) -> Seq<u8> {
    match did {
        Some(d) => seq![high_byte(d), low_byte(d)],
        None => Seq::empty(),
    }
}

/// The data identifier that two bytes spell, high byte first.
pub open spec fn did_of(hi: u8, lo: u8) -> u16 {
    ((hi as u16) << 8) | (lo as u16)
}

/// The negative response that is made of a length nibble and the two
/// identifiers as the tables know them: an unknown service is refused first,
/// then an unknown code.
pub open spec fn assemble_negative(size: u8, rsid: Option<u8>, nrc: Option<u8>) -> Result<
    FrameView,
    FrameError,
> {
    match (rsid, nrc) {
        (None, _) => Err(FrameError::InvalidSid),
        (Some(_), None) => Err(FrameError::InvalidNrc),
        (Some(rsid), Some(nrc)) => Ok(
            FrameView::NegativeResp(NegativeResponseView { size, rsid, nrc }),
        ),
    }
}

/// The byte as a service identifier, if the tables know it as one.
pub open spec fn known_service(byte: u8) -> Option<u8> {
    if is_service_id(byte) {
        Some(byte)
    } else {
        None
    }
}

/// The byte as a negative response code, if the tables know it as one.
pub open spec fn known_code(byte: u8) -> Option<u8> {
    if is_response_code(byte) {
        Some(byte)
    } else {
        None
    }
}

impl NegativeResponseView {
    /// The four bytes on the wire.
    pub open spec fn encode(self) -> Seq<u8> {
        seq![self.size & 0x0F, NEGATIVE_RESPONSE, self.rsid, self.nrc]
    }

    /// Decoding the bytes gives the frame back.
    pub open spec fn wf(self) -> bool {
        &&& self.size < 16
        &&& is_service_id(self.rsid)
        &&& is_response_code(self.nrc)
    }
}

impl SingleFrameView {
    /// The bytes on the wire, whatever the payload's length.
    pub open spec fn bytes(self) -> Seq<u8> {
        seq![self.size & 0x0F, self.sid] + did_bytes(self.did) + self.payload
    }

    /// The encoding: the bytes, unless the payload is too long.
    pub open spec fn encode(self) -> Result<Seq<u8>, FrameError> {
        if self.payload.len() > MAX_SINGLE_PAYLOAD {
            Err(FrameError::InvalidSize)
        } else {
            Ok(self.bytes())
        }
    }

    /// The length that the size nibble reports for this content: the service
    /// identifier, the data identifier and the payload.
    pub open spec fn content_len(self) -> int {
        self.payload.len() + if self.did is Some { 3int } else { 1int }
    }

    /// The frame can be encoded and its size fits the nibble.
    pub open spec fn wf(self) -> bool {
        &&& self.size < 16
        &&& self.payload.len() <= MAX_SINGLE_PAYLOAD
    }
}

impl FirstFrameView {
    /// The bytes on the wire, whatever the payload's length.
    pub open spec fn bytes(self) -> Seq<u8> {
        seq![0x10u8 | (high_byte(self.size) & 0x0F), low_byte(self.size), self.sid] + did_bytes(
            self.did,
        ) + self.payload
    }

    /// The encoding: the bytes, unless the payload is too long.
    pub open spec fn encode(self) -> Result<Seq<u8>, FrameError> {
        if self.payload.len() > MAX_FIRST_PAYLOAD {
            Err(FrameError::InvalidSize)
        } else {
            Ok(self.bytes())
        }
    }

    /// The frame can be encoded and its size fits twelve bits.
    pub open spec fn wf(self) -> bool {
        &&& self.size < 4096
        &&& self.payload.len() <= MAX_FIRST_PAYLOAD
    }
}

impl ConsecutiveFrameView {
    /// The bytes on the wire, whatever the payload's length.
    pub open spec fn bytes(self) -> Seq<u8> {
        seq![0x20u8 | (self.seq_num & 0x0F)] + self.payload
    }

    /// The encoding: the bytes, unless the payload is too long.
    pub open spec fn encode(self) -> Result<Seq<u8>, FrameError> {
        if self.payload.len() > MAX_SINGLE_PAYLOAD {
            Err(FrameError::InvalidSize)
        } else {
            Ok(self.bytes())
        }
    }

    /// The frame can be encoded and its sequence number fits the nibble.
    pub open spec fn wf(self) -> bool {
        &&& self.seq_num < 16
        &&& self.payload.len() <= MAX_SINGLE_PAYLOAD
    }
}

impl FlowControlFrameView {
    /// The bytes on the wire.
    pub open spec fn encode(self) -> Seq<u8> {
        seq![0x30u8 | (self.flag & 0x0F), self.block_size, self.separation_time] + self.padding
    }

    /// The flag fits the nibble.
    pub open spec fn wf(self) -> bool {
        self.flag < 16
    }
}

impl FrameView {
    /// The encoding of any frame.
    pub open spec fn encode(self) -> Result<Seq<u8>, FrameError> {
        match self {
            FrameView::Single(f) => f.encode(),
            FrameView::First(f) => f.encode(),
            FrameView::Consecutive(f) => f.encode(),
            FrameView::FlowControl(f) => Ok(f.encode()),
            FrameView::NegativeResp(f) => Ok(f.encode()),
        }
    }

    /// The frame can be encoded, and every field that shares a byte with the
    /// kind's selector fits its bits.
    pub open spec fn wf(self) -> bool {
        match self {
            FrameView::Single(f) => f.wf() && f.sid != NEGATIVE_RESPONSE,
            FrameView::First(f) => f.wf(),
            FrameView::Consecutive(f) => f.wf(),
            FrameView::FlowControl(f) => f.wf(),
            FrameView::NegativeResp(f) => f.wf(),
        }
    }

    /// The frame kind.
    pub open spec fn pci_type(self) -> PciType {
        match self {
            FrameView::Single(_) => PciType::SingleFrame,
            FrameView::First(_) => PciType::FirstFrame,
            FrameView::Consecutive(_) => PciType::ConsecutiveFrame,
            FrameView::FlowControl(_) => PciType::FlowControl,
            FrameView::NegativeResp(_) => PciType::SingleFrame,
        }
    }

    /// Whether decoding finds the data identifier as it is here: a present
    /// one always, an absent one only where fewer than two bytes follow the
    /// service identifier.
    pub open spec fn did_is_recovered(self) -> bool {
        match self {
            FrameView::Single(f) => f.did is Some || f.payload.len() < 2,
            FrameView::First(f) => f.did is Some || f.payload.len() < 2,
            _ => true,
        }
    }
}

/// Where the bytes after the service identifier go: a data identifier, if at
/// least two bytes follow, and the rest as payload.
pub open spec fn split_did(rest: Seq<u8>) -> (Option<u16>, Seq<u8>) {
    if rest.len() >= 2 {
        (Some(did_of(rest[0], rest[1])), rest.skip(2))
    } else {
        (None, rest)
    }
}

/// The frame that a single-frame layout holds. Where `0x7F` stands for the
/// service identifier the frame is a negative response of four bytes: a
/// shorter one is cut short, and only a whole one has its two identifiers
/// looked up.
pub open spec fn decode_single(data: Seq<u8>) -> Result<FrameView, FrameError>
    recommends
        data.len() > 0,
{
    let size = data[0] & 0x0F;
    if data.len() < 2 {
        Err(FrameError::InvalidSize)
    } else if data[1] == NEGATIVE_RESPONSE {
        if data.len() < NEGATIVE_RESPONSE_LEN {
            Err(FrameError::InvalidSize)
        } else {
            assemble_negative(size, known_service(data[2]), known_code(data[3]))
        }
    } else {
        let (did, payload) = split_did(data.skip(2));
        Ok(FrameView::Single(SingleFrameView { size, sid: data[1], did, payload }))
    }
}

/// The frame that a first-frame layout holds.
pub open spec fn decode_first(data: Seq<u8>) -> Result<FrameView, FrameError>
    recommends
        data.len() > 0,
{
    if data.len() < 3 {
        Err(FrameError::InvalidSize)
    } else {
        let size = (((data[0] & 0x0F) as u16) << 8) | (data[1] as u16);
        let (did, payload) = split_did(data.skip(3));
        Ok(FrameView::First(FirstFrameView { size, sid: data[2], did, payload }))
    }
}

/// The frame that the bytes of one CAN payload hold, or why they hold none.
/// The high nibble of the first byte selects the layout.
pub open spec fn decode(data: Seq<u8>) -> Result<FrameView, FrameError> {
    if data.len() == 0 {
        Err(FrameError::InvalidCanLength)
    } else if data[0] >> 4 == 0 {
        decode_single(data)
    } else if data[0] >> 4 == 1 {
        decode_first(data)
    } else if data[0] >> 4 == 2 {
        Ok(
            FrameView::Consecutive(
                ConsecutiveFrameView { seq_num: data[0] & 0x0F, payload: data.skip(1) },
            ),
        )
    } else if data[0] >> 4 == 3 {
        if data.len() < 3 {
            Err(FrameError::InvalidSize)
        } else {
            Ok(
                FrameView::FlowControl(
                    FlowControlFrameView {
                        flag: data[0] & 0x0F,
                        block_size: data[1],
                        separation_time: data[2],
                        padding: data.skip(3),
                    },
                ),
            )
        }
    } else {
        Err(FrameError::InvalidFrameType)
    }
}

/// Appends `src` to `dst`.
fn append_bytes(dst: &mut Vec<u8>, src: &Vec<u8>)
    ensures
        final(dst)@ == old(dst)@ + src@,
{
    let mut i: usize = 0;
    while i < src.len()
        invariant
            i <= src.len(),
            dst@ == old(dst)@ + src@.take(i as int),
        decreases src.len() - i,
    {
        dst.push(src[i]);
        i += 1;
    }
    assert(src@.take(src.len() as int) == src@);
}

/// The high byte of `x`.
fn high_byte_of(x: u16) -> (r: u8)
    ensures
        r == high_byte(x),
{
    assert(x >> 8 < 256) by (bit_vector);
    (x >> 8) as u8
}

/// The low byte of `x`.
fn low_byte_of(x: u16) -> (r: u8)
    ensures
        r == low_byte(x),
{
    assert(x & 0xFF < 256) by (bit_vector);
    (x & 0xFF) as u8
}

/// Appends the two bytes of a data identifier, if there is one.
fn append_did(dst: &mut Vec<u8>, did: Option<u16>)
    ensures
        final(dst)@ == old(dst)@ + did_bytes(did),
{
    if let Some(d) = did {
        dst.push(high_byte_of(d));
        dst.push(low_byte_of(d));
        assert(dst@ =~= old(dst)@ + did_bytes(did));
    } else {
        assert(dst@ =~= old(dst)@ + did_bytes(did));
    }
}

/// The bytes of `data` from `start` on; none where `data` is shorter.
fn tail_bytes(data: &Vec<u8>, start: usize) -> (r: Vec<u8>)
    ensures
        start <= data.len() ==> r@ == data@.skip(start as int),
        start > data.len() ==> r@ == Seq::<u8>::empty(),
{
    let mut out: Vec<u8> = Vec::new();
    let mut i: usize = start;
    while i < data.len()
        invariant
            start <= i,
            start <= data.len() ==> i <= data.len() && out@ == data@.subrange(
                start as int,
                i as int,
            ),
            start > data.len() ==> out@ == Seq::<u8>::empty(),
        decreases data.len() - i,
    {
        out.push(data[i]);
        i += 1;
    }
    out
}

/// The byte of an optional service identifier.
pub open spec fn view_of_id(id: Option<ServiceId>) -> Option<u8> {
    match id {
        Some(id) => Some(id@),
        None => None,
    }
}

/// The byte of an optional response code.
pub open spec fn view_of_code(code: Option<ResponseCode>) -> Option<u8> {
    match code {
        Some(code) => Some(code@),
        None => None,
    }
}

impl UdsNegativeResponse {
    /// A negative response to the service `rsid` with the reason `nrc`.
    pub fn new(rsid: ServiceId, nrc: ResponseCode, size: u8) -> (r: Self)
        ensures
            r.size == size,
            r.rsid == rsid,
            r.nrc == nrc,
    {
        Self { size, rsid, nrc }
    }

    /// The negative response frame that is made of a length nibble and the
    /// two identifiers as they were looked up, where nothing stands for one
    /// that the tables do not know: an unknown service is refused first,
    /// then an unknown code.
    pub fn assemble(size: u8, rsid: Option<ServiceId>, nrc: Option<ResponseCode>) -> (r: Result<
        UdsFrame,
        FrameError,
    >)
        ensures
            r is Ok == (rsid is Some && nrc is Some),
            r matches Ok(f) ==> f == UdsFrame::NegativeResp(
                UdsNegativeResponse { size, rsid: rsid->Some_0, nrc: nrc->Some_0 },
            ),
            r matches Err(e) ==> e == if rsid is None {
                FrameError::InvalidSid
            } else {
                FrameError::InvalidNrc
            },
            r is Ok == assemble_negative(size, view_of_id(rsid), view_of_code(nrc)) is Ok,
            r matches Ok(f) ==> assemble_negative(size, view_of_id(rsid), view_of_code(nrc)) == Ok::<
                FrameView,
                FrameError,
            >(f@),
            r matches Err(e) ==> assemble_negative(size, view_of_id(rsid), view_of_code(nrc))
                == Err::<FrameView, FrameError>(e),
    {
        match rsid {
            None => Err(FrameError::InvalidSid),
            Some(rsid) => match nrc {
                None => Err(FrameError::InvalidNrc),
                Some(nrc) => Ok(UdsFrame::NegativeResp(UdsNegativeResponse { size, rsid, nrc })),
            },
        }
    }

    /// The four bytes on the wire.
    pub fn to_vec(&self) -> (r: Vec<u8>)
        ensures
            r@ == self@.encode(),
    {
        let mut frame: Vec<u8> = Vec::new();
        frame.push(self.size & 0x0F);
        frame.push(NEGATIVE_RESPONSE);
        frame.push(self.rsid.byte());
        frame.push(self.nrc.byte());
        frame
    }
}

impl UdsSingleFrame {
    /// A single frame whose size counts the service identifier, the data
    /// identifier and the payload. More than seven payload bytes are refused.
    pub fn new(sid: u8, did: Option<u16>, payload: Vec<u8>) -> (r: Result<Self, FrameError>)
        ensures
            payload.len() > MAX_SINGLE_PAYLOAD ==> r == Err::<Self, FrameError>(
                FrameError::InvalidCanLength,
            ),
            payload.len() <= MAX_SINGLE_PAYLOAD ==> r is Ok && r->Ok_0@ == (SingleFrameView {
                size: (payload.len() + if did is Some { 3int } else { 1int }) as u8,
                sid,
                did,
                payload: payload@,
            }),
            r matches Ok(f) ==> f@.wf() && f.size == f@.content_len(),
    {
        if payload.len() > MAX_SINGLE_PAYLOAD {
            return Err(FrameError::InvalidCanLength);
        }
        let size: u8 = if did.is_some() {
            (payload.len() + 3) as u8
        } else {
            (payload.len() + 1) as u8
        };
        Ok(Self { size, sid, did, payload })
    }

    /// The bytes on the wire; a payload of more than seven bytes is refused.
    pub fn to_vec(&self) -> (r: Result<Vec<u8>, FrameError>)
        ensures
            r is Ok == self@.encode() is Ok,
            r matches Ok(v) ==> self@.encode() == Ok::<Seq<u8>, FrameError>(v@),
            r matches Err(e) ==> self@.encode() == Err::<Seq<u8>, FrameError>(e),
    {
        if self.payload.len() > MAX_SINGLE_PAYLOAD {
            return Err(FrameError::InvalidSize);
        }
        let mut frame: Vec<u8> = Vec::new();
        frame.push(self.size & 0x0F);
        frame.push(self.sid);
        assert(frame@ =~= seq![self.size & 0x0F, self.sid]);
        append_did(&mut frame, self.did);
        append_bytes(&mut frame, &self.payload);
        Ok(frame)
    }
}

impl UdsFirstFrame {
    /// A first frame that announces `size` bytes in all. More than six
    /// payload bytes are refused.
    pub fn new(sid: u8, size: u16, did: Option<u16>, payload: Vec<u8>) -> (r: Result<
        Self,
        FrameError,
    >)
        ensures
            payload.len() > MAX_FIRST_PAYLOAD ==> r == Err::<Self, FrameError>(
                FrameError::InvalidCanLength,
            ),
            payload.len() <= MAX_FIRST_PAYLOAD ==> r is Ok && r->Ok_0@ == (FirstFrameView {
                size,
                sid,
                did,
                payload: payload@,
            }),
    {
        if payload.len() > MAX_FIRST_PAYLOAD {
            return Err(FrameError::InvalidCanLength);
        }
        Ok(Self { size, sid, did, payload })
    }

    /// The bytes on the wire; a payload of more than six bytes is refused.
    pub fn to_vec(&self) -> (r: Result<Vec<u8>, FrameError>)
        ensures
            r is Ok == self@.encode() is Ok,
            r matches Ok(v) ==> self@.encode() == Ok::<Seq<u8>, FrameError>(v@),
            r matches Err(e) ==> self@.encode() == Err::<Seq<u8>, FrameError>(e),
    {
        if self.payload.len() > MAX_FIRST_PAYLOAD {
            return Err(FrameError::InvalidSize);
        }
        let mut frame: Vec<u8> = Vec::new();
        frame.push(0x10u8 | (high_byte_of(self.size) & 0x0F));
        frame.push(low_byte_of(self.size));
        frame.push(self.sid);
        assert(frame@ =~= seq![
            0x10u8 | (high_byte(self.size) & 0x0F),
            low_byte(self.size),
            self.sid,
        ]);
        append_did(&mut frame, self.did);
        append_bytes(&mut frame, &self.payload);
        Ok(frame)
    }
}

impl UdsConsecutiveFrame {
    /// A consecutive frame. More than seven payload bytes are refused.
    pub fn new(seq_num: u8, payload: Vec<u8>) -> (r: Result<Self, FrameError>)
        ensures
            payload.len() > MAX_SINGLE_PAYLOAD ==> r == Err::<Self, FrameError>(
                FrameError::InvalidCanLength,
            ),
            payload.len() <= MAX_SINGLE_PAYLOAD ==> r is Ok && r->Ok_0@ == (ConsecutiveFrameView {
                seq_num,
                payload: payload@,
            }),
    {
        if payload.len() > MAX_SINGLE_PAYLOAD {
            return Err(FrameError::InvalidCanLength);
        }
        Ok(Self { seq_num, payload })
    }

    /// The bytes on the wire; a payload of more than seven bytes is refused.
    pub fn to_vec(&self) -> (r: Result<Vec<u8>, FrameError>)
        ensures
            r is Ok == self@.encode() is Ok,
            r matches Ok(v) ==> self@.encode() == Ok::<Seq<u8>, FrameError>(v@),
            r matches Err(e) ==> self@.encode() == Err::<Seq<u8>, FrameError>(e),
    {
        if self.payload.len() > MAX_SINGLE_PAYLOAD {
            return Err(FrameError::InvalidSize);
        }
        let mut frame: Vec<u8> = Vec::new();
        frame.push(0x20u8 | (self.seq_num & 0x0F));
        append_bytes(&mut frame, &self.payload);
        Ok(frame)
    }
}

impl UdsFlowControlFrame {
    /// A flow control frame. More than five padding bytes are refused.
    pub fn new(flag: u8, block_size: u8, separation_time: u8, padding: Vec<u8>) -> (r: Result<
        Self,
        FrameError,
    >)
        ensures
            padding.len() > MAX_PADDING ==> r == Err::<Self, FrameError>(
                FrameError::InvalidCanLength,
            ),
            padding.len() <= MAX_PADDING ==> r is Ok && r->Ok_0@ == (FlowControlFrameView {
                flag,
                block_size,
                separation_time,
                padding: padding@,
            }),
    {
        if padding.len() > MAX_PADDING {
            return Err(FrameError::InvalidCanLength);
        }
        Ok(Self { flag, block_size, separation_time, padding })
    }

    /// The bytes on the wire. Encoding a flow control frame never fails.
    pub fn to_vec(&self) -> (r: Result<Vec<u8>, FrameError>)
        ensures
            r is Ok,
            r->Ok_0@ == self@.encode(),
    {
        let mut frame: Vec<u8> = Vec::new();
        frame.push(0x30u8 | (self.flag & 0x0F));
        frame.push(self.block_size);
        frame.push(self.separation_time);
        append_bytes(&mut frame, &self.padding);
        Ok(frame)
    }
}

/// The data identifier and the payload that follow the first `start` bytes.
fn read_did_and_payload(data: &Vec<u8>, start: usize) -> (r: (Option<u16>, Vec<u8>))
    requires
        start <= data.len(),
        start <= 3,
    ensures
        (r.0, r.1@) == split_did(data@.skip(start as int)),
{
    if data.len() - start >= 2 {
        let hi: u8 = data[start];
        let lo: u8 = data[start + 1];
        let did: u16 = ((hi as u16) << 8) | (lo as u16);
        let payload = tail_bytes(data, start + 2);
        assert(data@.skip(start as int).skip(2) =~= data@.skip(start + 2));
        (Some(did), payload)
    } else {
        (None, tail_bytes(data, start))
    }
}

impl UdsFrame {
    /// The frame kind; a negative response travels as a single frame.
    pub fn pci_type(&self) -> (r: PciType)
        ensures
            r == self@.pci_type(),
    {
        match self {
            UdsFrame::Single(_) => PciType::SingleFrame,
            UdsFrame::First(_) => PciType::FirstFrame,
            UdsFrame::Consecutive(_) => PciType::ConsecutiveFrame,
            UdsFrame::FlowControl(_) => PciType::FlowControl,
            UdsFrame::NegativeResp(_) => PciType::SingleFrame,
        }
    }

    /// Whether this is a negative response.
    pub fn is_negative_frame(&self) -> (r: bool)
        ensures
            r == (self@ is NegativeResp),
    {
        matches!(self, UdsFrame::NegativeResp(_))
    }

    /// Whether this is a single frame.
    pub fn is_single_frame(&self) -> (r: bool)
        ensures
            r == (self@ is Single),
    {
        matches!(self, UdsFrame::Single(_))
    }

    /// Whether this is a first frame.
    pub fn is_first_frame(&self) -> (r: bool)
        ensures
            r == (self@ is First),
    {
        matches!(self, UdsFrame::First(_))
    }

    /// Whether this is a consecutive frame.
    pub fn is_consecutive_frame(&self) -> (r: bool)
        ensures
            r == (self@ is Consecutive),
    {
        matches!(self, UdsFrame::Consecutive(_))
    }

    /// Whether this is a flow control frame.
    pub fn is_flow_control_frame(&self) -> (r: bool)
        ensures
            r == (self@ is FlowControl),
    {
        matches!(self, UdsFrame::FlowControl(_))
    }

    /// The bytes on the wire, or why the frame cannot be encoded.
    pub fn to_vec(&self) -> (r: Result<Vec<u8>, FrameError>)
        ensures
            r is Ok == self@.encode() is Ok,
            r matches Ok(v) ==> self@.encode() == Ok::<Seq<u8>, FrameError>(v@),
            r matches Err(e) ==> self@.encode() == Err::<Seq<u8>, FrameError>(e),
    {
        match self {
            UdsFrame::Single(f) => f.to_vec(),
            UdsFrame::First(f) => f.to_vec(),
            UdsFrame::Consecutive(f) => f.to_vec(),
            UdsFrame::FlowControl(f) => f.to_vec(),
            UdsFrame::NegativeResp(f) => Ok(f.to_vec()),
        }
    }

    /// The frame that the bytes of one CAN payload hold, or why they hold
    /// none.
    pub fn from_vec(data: Vec<u8>) -> (r: Result<Self, FrameError>)
        ensures
            r is Ok == decode(data@) is Ok,
            r matches Ok(f) ==> decode(data@) == Ok::<FrameView, FrameError>(f@),
            r matches Err(e) ==> decode(data@) == Err::<FrameView, FrameError>(e),
    {
        if data.len() == 0 {
            return Err(FrameError::InvalidCanLength);
        }
        let first: u8 = data[0];
        let frame_type: u8 = first >> 4;
        let low: u8 = first & 0x0F;
        if frame_type == 0 {
            if data.len() < 2 {
                return Err(FrameError::InvalidSize);
            }
            let sid: u8 = data[1];
            if sid == NEGATIVE_RESPONSE {
                if data.len() < NEGATIVE_RESPONSE_LEN {
                    return Err(FrameError::InvalidSize);
                }
                let rsid = ServiceId::new(data[2]);
                let nrc = ResponseCode::new(data[3]);
                return UdsNegativeResponse::assemble(low, rsid, nrc);
            }
            let (did, payload) = read_did_and_payload(&data, 2);
            Ok(UdsFrame::Single(UdsSingleFrame { size: low, sid, did, payload }))
        } else if frame_type == 1 {
            if data.len() < 3 {
                return Err(FrameError::InvalidSize);
            }
            let size: u16 = ((low as u16) << 8) | (data[1] as u16);
            let sid: u8 = data[2];
            let (did, payload) = read_did_and_payload(&data, 3);
            Ok(UdsFrame::First(UdsFirstFrame { size, sid, did, payload }))
        } else if frame_type == 2 {
            let payload = tail_bytes(&data, 1);
            Ok(UdsFrame::Consecutive(UdsConsecutiveFrame { seq_num: low, payload }))
        } else if frame_type == 3 {
            if data.len() < 3 {
                return Err(FrameError::InvalidSize);
            }
            let padding = tail_bytes(&data, 3);
            Ok(
                UdsFrame::FlowControl(
                    UdsFlowControlFrame {
                        flag: low,
                        block_size: data[1],
                        separation_time: data[2],
                        padding,
                    },
                ),
            )
        } else {
            Err(FrameError::InvalidFrameType)
        }
    }
}

/// A copy of `data`.
fn copy_bytes(data: &Vec<u8>) -> (r: Vec<u8>)
    ensures
        r@ == data@,
{
    assert(data@.skip(0) =~= data@);
    tail_bytes(data, 0)
}

impl Clone for UdsSingleFrame {
    fn clone(&self) -> (r: Self)
        ensures
            r@ == self@,
    {
        Self {
            size: self.size,
            sid: self.sid,
            did: self.did,
            payload: copy_bytes(&self.payload),
        }
    }
}

impl Clone for UdsFirstFrame {
    fn clone(&self) -> (r: Self)
        ensures
            r@ == self@,
    {
        Self {
            size: self.size,
            sid: self.sid,
            did: self.did,
            payload: copy_bytes(&self.payload),
        }
    }
}

impl Clone for UdsConsecutiveFrame {
    fn clone(&self) -> (r: Self)
        ensures
            r@ == self@,
    {
        Self { seq_num: self.seq_num, payload: copy_bytes(&self.payload) }
    }
}

impl Clone for UdsFlowControlFrame {
    fn clone(&self) -> (r: Self)
        ensures
            r@ == self@,
    {
        Self {
            flag: self.flag,
            block_size: self.block_size,
            separation_time: self.separation_time,
            padding: copy_bytes(&self.padding),
        }
    }
}

impl Clone for UdsFrame {
    fn clone(&self) -> (r: Self)
        ensures
            r@ == self@,
    {
        match self {
            UdsFrame::Single(f) => UdsFrame::Single(f.clone()),
            UdsFrame::First(f) => UdsFrame::First(f.clone()),
            UdsFrame::Consecutive(f) => UdsFrame::Consecutive(f.clone()),
            UdsFrame::FlowControl(f) => UdsFrame::FlowControl(f.clone()),
            UdsFrame::NegativeResp(f) => UdsFrame::NegativeResp(*f),
        }
    }
}

} // verus!
