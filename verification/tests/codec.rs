use automotive_diag::uds::{UdsCommand, UdsError};
use uds_client_rs::codes::{ResponseCode, ServiceId};
use uds_client_rs::frame::{
    FrameError, UdsConsecutiveFrame, UdsFirstFrame, UdsFlowControlFrame, UdsFrame,
    UdsNegativeResponse, UdsSingleFrame,
};
use uds_client_rs::pci::{PciByte, PciType};

fn round_trip(frame: UdsFrame) {
    let bytes = frame.to_vec().unwrap();
    assert_eq!(UdsFrame::from_vec(bytes), Ok(frame));
}

#[test]
fn negative_response_decode() {
    let frame = UdsFrame::from_vec(vec![0x03, 0x7F, 0x11, 0x78]).unwrap();
    let expected = UdsNegativeResponse::new(
        ServiceId::new(u8::from(UdsCommand::ECUReset)).unwrap(),
        ResponseCode::new(u8::from(UdsError::RequestCorrectlyReceivedResponsePending)).unwrap(),
        3,
    );
    assert_eq!(frame, UdsFrame::NegativeResp(expected));
    assert!(frame.is_negative_frame());
    assert_eq!(frame.pci_type(), PciType::SingleFrame);
    match frame {
        UdsFrame::NegativeResp(n) => {
            assert_eq!(n.size, 3);
            assert_eq!(n.rsid, ServiceId::ecu_reset());
            assert_eq!(n.nrc, ResponseCode::response_pending());
            assert!(n.nrc.is_pending());
        }
        _ => panic!("not a negative response"),
    }
}

#[test]
fn first_frame_decode() {
    let frame =
        UdsFrame::from_vec(vec![0x10, 0x14, 0x6A, 0x01, 0xB0, 0xAA, 0xBB, 0xCC]).unwrap();
    assert_eq!(
        frame,
        UdsFrame::First(UdsFirstFrame {
            size: 20,
            sid: 0x6A,
            did: Some(0x01B0),
            payload: vec![0xAA, 0xBB, 0xCC],
        })
    );
    assert!(frame.is_first_frame());
    assert_eq!(frame.pci_type(), PciType::FirstFrame);
}

#[test]
fn consecutive_decode() {
    let frame = UdsFrame::from_vec(vec![0x21, 0xDD, 0xEE, 0xFF]).unwrap();
    assert_eq!(
        frame,
        UdsFrame::Consecutive(UdsConsecutiveFrame { seq_num: 1, payload: vec![0xDD, 0xEE, 0xFF] })
    );
    assert!(frame.is_consecutive_frame());
    assert_eq!(frame.pci_type(), PciType::ConsecutiveFrame);
}

#[test]
fn flow_control_emit() {
    let frame = UdsFlowControlFrame::new(0x00, 0x00, 0x7F, Vec::new()).unwrap();
    assert_eq!(frame.to_vec(), Ok(vec![0x30, 0x00, 0x7F]));
    let frame = UdsFrame::FlowControl(frame);
    assert!(frame.is_flow_control_frame());
    assert_eq!(frame.pci_type(), PciType::FlowControl);
    assert_eq!(frame.to_vec(), Ok(vec![0x30, 0x00, 0x7F]));
}

#[test]
fn single_frame_decode_with_did() {
    let frame = UdsFrame::from_vec(vec![0x04, 0x6A, 0x01, 0xB0, 0x99]).unwrap();
    assert_eq!(
        frame,
        UdsFrame::Single(UdsSingleFrame {
            size: 4,
            sid: 0x6A,
            did: Some(0x01B0),
            payload: vec![0x99],
        })
    );
    assert!(frame.is_single_frame());
    assert!(!frame.is_negative_frame());
}

#[test]
fn single_frame_decode_without_did() {
    assert_eq!(
        UdsFrame::from_vec(vec![0x01, 0x51]),
        Ok(UdsFrame::Single(UdsSingleFrame { size: 1, sid: 0x51, did: None, payload: vec![] }))
    );
    assert_eq!(
        UdsFrame::from_vec(vec![0x02, 0x51, 0x40]),
        Ok(UdsFrame::Single(UdsSingleFrame { size: 2, sid: 0x51, did: None, payload: vec![0x40] }))
    );
    assert_eq!(
        UdsFrame::from_vec(vec![0x03, 0x51, 0x40, 0x41]),
        Ok(UdsFrame::Single(UdsSingleFrame {
            size: 3,
            sid: 0x51,
            did: Some(0x4041),
            payload: vec![],
        }))
    );
}

#[test]
fn first_frame_decode_without_did() {
    assert_eq!(
        UdsFrame::from_vec(vec![0x1F, 0xFF, 0x6A, 0x07]),
        Ok(UdsFrame::First(UdsFirstFrame {
            size: 0x0FFF,
            sid: 0x6A,
            did: None,
            payload: vec![0x07],
        }))
    );
    assert_eq!(
        UdsFrame::from_vec(vec![0x10, 0x00, 0x6A]),
        Ok(UdsFrame::First(UdsFirstFrame { size: 0, sid: 0x6A, did: None, payload: vec![] }))
    );
}

#[test]
fn flow_control_decode_keeps_padding() {
    assert_eq!(
        UdsFrame::from_vec(vec![0x31, 0x08, 0x14, 0xAA, 0xAA]),
        Ok(UdsFrame::FlowControl(UdsFlowControlFrame {
            flag: 1,
            block_size: 8,
            separation_time: 0x14,
            padding: vec![0xAA, 0xAA],
        }))
    );
}

#[test]
fn single_frame_encode() {
    let frame = UdsSingleFrame::new(0x22, Some(0xF190), vec![0x01, 0x02]).unwrap();
    assert_eq!(frame.size, 5);
    assert_eq!(frame.to_vec(), Ok(vec![0x05, 0x22, 0xF1, 0x90, 0x01, 0x02]));
    let frame = UdsSingleFrame::new(0x11, None, vec![0x40]).unwrap();
    assert_eq!(frame.size, 2);
    assert_eq!(frame.to_vec(), Ok(vec![0x02, 0x11, 0x40]));
    let frame = UdsSingleFrame::new(0x3E, None, vec![]).unwrap();
    assert_eq!(frame.size, 1);
    assert_eq!(frame.to_vec(), Ok(vec![0x01, 0x3E]));
}

#[test]
fn single_frame_size_nibble_is_masked() {
    let frame = UdsSingleFrame { size: 0x35, sid: 0x22, did: None, payload: vec![] };
    assert_eq!(frame.to_vec(), Ok(vec![0x05, 0x22]));
    let frame = UdsSingleFrame::new(0x22, Some(0x0102), vec![0; 7]).unwrap();
    assert_eq!(frame.size, 10);
    assert_eq!(frame.to_vec().unwrap()[0], 0x0A);
}

#[test]
fn first_frame_encode() {
    let frame = UdsFirstFrame::new(0x6A, 0x0ABC, Some(0x01B0), vec![1, 2, 3]).unwrap();
    assert_eq!(frame.to_vec(), Ok(vec![0x1A, 0xBC, 0x6A, 0x01, 0xB0, 1, 2, 3]));
    let frame = UdsFirstFrame::new(0x6A, 0xFABC, None, vec![]).unwrap();
    assert_eq!(frame.to_vec(), Ok(vec![0x1A, 0xBC, 0x6A]));
}

#[test]
fn consecutive_frame_encode() {
    let frame = UdsConsecutiveFrame::new(0x0F, vec![9, 8, 7]).unwrap();
    assert_eq!(frame.to_vec(), Ok(vec![0x2F, 9, 8, 7]));
    let frame = UdsConsecutiveFrame::new(0x13, vec![]).unwrap();
    assert_eq!(frame.to_vec(), Ok(vec![0x23]));
}

#[test]
fn negative_response_encode() {
    let frame = UdsNegativeResponse::new(
        ServiceId::read_data_by_periodic_identifier(),
        ResponseCode::new(0x31).unwrap(),
        0x13,
    );
    assert_eq!(frame.to_vec(), vec![0x03, 0x7F, 0x2A, 0x31]);
    assert_eq!(UdsFrame::NegativeResp(frame).to_vec(), Ok(vec![0x03, 0x7F, 0x2A, 0x31]));
}

#[test]
fn constructors_refuse_long_payloads() {
    assert_eq!(UdsSingleFrame::new(0x22, None, vec![0; 8]), Err(FrameError::InvalidCanLength));
    assert!(UdsSingleFrame::new(0x22, None, vec![0; 7]).is_ok());
    assert_eq!(UdsFirstFrame::new(0x22, 20, None, vec![0; 7]), Err(FrameError::InvalidCanLength));
    assert!(UdsFirstFrame::new(0x22, 20, None, vec![0; 6]).is_ok());
    assert_eq!(UdsConsecutiveFrame::new(1, vec![0; 8]), Err(FrameError::InvalidCanLength));
    assert!(UdsConsecutiveFrame::new(1, vec![0; 7]).is_ok());
    assert_eq!(
        UdsFlowControlFrame::new(0, 0, 0, vec![0; 6]),
        Err(FrameError::InvalidCanLength)
    );
    assert!(UdsFlowControlFrame::new(0, 0, 0, vec![0; 5]).is_ok());
}

#[test]
fn encoders_refuse_long_payloads() {
    let single = UdsSingleFrame { size: 9, sid: 0x22, did: None, payload: vec![0; 8] };
    assert_eq!(single.to_vec(), Err(FrameError::InvalidSize));
    let first = UdsFirstFrame { size: 9, sid: 0x22, did: None, payload: vec![0; 7] };
    assert_eq!(first.to_vec(), Err(FrameError::InvalidSize));
    let consecutive = UdsConsecutiveFrame { seq_num: 1, payload: vec![0; 8] };
    assert_eq!(consecutive.to_vec(), Err(FrameError::InvalidSize));
    assert_eq!(UdsFrame::Consecutive(consecutive).to_vec(), Err(FrameError::InvalidSize));
    let flow = UdsFlowControlFrame { flag: 0, block_size: 0, separation_time: 0, padding: vec![0; 9] };
    assert_eq!(flow.to_vec().unwrap().len(), 12);
}

#[test]
fn decode_errors() {
    assert_eq!(UdsFrame::from_vec(vec![]), Err(FrameError::InvalidCanLength));
    assert_eq!(UdsFrame::from_vec(vec![0x02]), Err(FrameError::InvalidSize));
    assert_eq!(UdsFrame::from_vec(vec![0x10]), Err(FrameError::InvalidSize));
    assert_eq!(UdsFrame::from_vec(vec![0x10, 0x14]), Err(FrameError::InvalidSize));
    assert_eq!(UdsFrame::from_vec(vec![0x30]), Err(FrameError::InvalidSize));
    assert_eq!(UdsFrame::from_vec(vec![0x30, 0x00]), Err(FrameError::InvalidSize));
    assert_eq!(UdsFrame::from_vec(vec![0x40, 0x00, 0x00]), Err(FrameError::InvalidFrameType));
    assert_eq!(UdsFrame::from_vec(vec![0xF1, 0x00, 0x00]), Err(FrameError::InvalidFrameType));
    assert_eq!(UdsFrame::from_vec(vec![0x03, 0x7F, 0x42, 0x78]), Err(FrameError::InvalidSid));
    assert_eq!(UdsFrame::from_vec(vec![0x03, 0x7F, 0x11, 0x00]), Err(FrameError::InvalidNrc));
    assert_eq!(UdsFrame::from_vec(vec![0x03, 0x7F, 0x42, 0x00]), Err(FrameError::InvalidSid));
}

#[test]
fn a_negative_response_cut_short_has_an_invalid_size() {
    assert_eq!(UdsFrame::from_vec(vec![0x03, 0x7F]), Err(FrameError::InvalidSize));
    assert_eq!(UdsFrame::from_vec(vec![0x03, 0x7F, 0x11]), Err(FrameError::InvalidSize));
    assert_eq!(UdsFrame::from_vec(vec![0x03, 0x7F, 0x42]), Err(FrameError::InvalidSize));
    assert!(UdsFrame::from_vec(vec![0x03, 0x7F, 0x11, 0x78]).is_ok());
}

#[test]
fn consecutive_frame_of_one_byte_decodes() {
    assert_eq!(
        UdsFrame::from_vec(vec![0x2C]),
        Ok(UdsFrame::Consecutive(UdsConsecutiveFrame { seq_num: 12, payload: vec![] }))
    );
}

#[test]
fn decode_undoes_encode() {
    round_trip(UdsFrame::Single(UdsSingleFrame::new(0x22, Some(0xF190), vec![1, 2, 3]).unwrap()));
    round_trip(UdsFrame::Single(UdsSingleFrame::new(0x22, Some(0xF190), vec![]).unwrap()));
    round_trip(UdsFrame::Single(UdsSingleFrame::new(0x3E, None, vec![]).unwrap()));
    round_trip(UdsFrame::Single(UdsSingleFrame::new(0x11, None, vec![0x40]).unwrap()));
    round_trip(UdsFrame::First(UdsFirstFrame::new(0x6A, 4095, Some(0), vec![1; 6]).unwrap()));
    round_trip(UdsFrame::First(UdsFirstFrame::new(0x6A, 0, None, vec![7]).unwrap()));
    round_trip(UdsFrame::Consecutive(UdsConsecutiveFrame::new(15, vec![1; 7]).unwrap()));
    round_trip(UdsFrame::Consecutive(UdsConsecutiveFrame::new(0, vec![]).unwrap()));
    round_trip(UdsFrame::FlowControl(UdsFlowControlFrame::new(2, 255, 1, vec![0xCC; 5]).unwrap()));
    round_trip(UdsFrame::NegativeResp(UdsNegativeResponse::new(
        ServiceId::ecu_reset(),
        ResponseCode::new(0x22).unwrap(),
        3,
    )));
}

#[test]
fn absent_did_before_two_payload_bytes_is_read_as_did() {
    let frame = UdsSingleFrame::new(0x22, None, vec![0x12, 0x34, 0x56]).unwrap();
    let bytes = frame.to_vec().unwrap();
    assert_eq!(bytes, vec![0x04, 0x22, 0x12, 0x34, 0x56]);
    let back = UdsFrame::from_vec(bytes.clone()).unwrap();
    assert_eq!(
        back,
        UdsFrame::Single(UdsSingleFrame {
            size: 4,
            sid: 0x22,
            did: Some(0x1234),
            payload: vec![0x56],
        })
    );
    assert_eq!(back.to_vec(), Ok(bytes));
}

#[test]
fn encode_undoes_decode() {
    let inputs: Vec<Vec<u8>> = vec![
        vec![0x04, 0x6A, 0x01, 0xB0, 0x99],
        vec![0x07, 0x62, 1, 2, 3, 4, 5, 6],
        vec![0x10, 0x14, 0x6A, 0x01, 0xB0, 0xAA, 0xBB, 0xCC],
        vec![0x21, 0xDD, 0xEE, 0xFF],
        vec![0x30, 0x00, 0x7F, 0, 0, 0, 0, 0],
        vec![0x03, 0x7F, 0x11, 0x78],
    ];
    for bytes in inputs {
        let frame = UdsFrame::from_vec(bytes.clone()).unwrap();
        assert_eq!(frame.to_vec(), Ok(bytes));
    }
    let frame = UdsFrame::from_vec(vec![0x03, 0x7F, 0x11, 0x78, 0xAA, 0xAA]).unwrap();
    assert_eq!(frame.to_vec(), Ok(vec![0x03, 0x7F, 0x11, 0x78]));
}

#[test]
fn clone_keeps_the_frame() {
    let frame = UdsFrame::First(UdsFirstFrame::new(0x6A, 20, Some(0x01B0), vec![1, 2]).unwrap());
    assert_eq!(frame.clone(), frame);
    let frame = UdsFrame::FlowControl(UdsFlowControlFrame::new(1, 2, 3, vec![4]).unwrap());
    assert_eq!(frame.clone(), frame);
}

#[test]
fn service_ids_are_those_of_the_tables() {
    for byte in 0u8..=255 {
        assert_eq!(ServiceId::new(byte).is_some(), UdsCommand::from_repr(byte).is_some());
        assert_eq!(ResponseCode::new(byte).is_some(), UdsError::from_repr(byte).is_some());
        if let Some(id) = ServiceId::new(byte) {
            assert_eq!(id.byte(), byte);
        }
        if let Some(code) = ResponseCode::new(byte) {
            assert_eq!(code.byte(), byte);
            assert_eq!(code.is_pending(), byte == 0x78);
        }
    }
    assert!(ServiceId::new(0x42).is_none());
    assert!(ResponseCode::new(0x00).is_none());
}

#[test]
fn named_codes() {
    assert_eq!(ServiceId::ecu_reset().byte(), 0x11);
    assert_eq!(ServiceId::ecu_reset().byte(), u8::from(UdsCommand::ECUReset));
    assert_eq!(ServiceId::read_data_by_periodic_identifier().byte(), 0x2A);
    assert_eq!(
        ServiceId::read_data_by_periodic_identifier().byte(),
        u8::from(UdsCommand::ReadDataByPeriodicIdentifier)
    );
    assert_eq!(ResponseCode::response_pending().byte(), 0x78);
    assert_eq!(
        ResponseCode::response_pending().byte(),
        u8::from(UdsError::RequestCorrectlyReceivedResponsePending)
    );
}

#[test]
fn pci_byte_encoding() {
    assert_eq!(PciByte::new(PciType::SingleFrame, 2).as_byte(), 0x02);
    assert_eq!(PciByte::new(PciType::SingleFrame, 0x13).as_byte(), 0x03);
    assert_eq!(PciByte::new(PciType::FirstFrame, 0x0A).as_byte(), 0x1A);
    assert_eq!(PciByte::new(PciType::ConsecutiveFrame, 0xFF).as_byte(), 0x2F);
    assert_eq!(PciByte::new(PciType::FlowControl, 0).as_byte(), 0x30);
    assert_eq!(u8::from(PciByte::new(PciType::FlowControl, 2)), 0x32);
    let byte = PciByte::new(PciType::FirstFrame, 0xAB);
    assert_eq!(byte.get_type(), PciType::FirstFrame);
    assert_eq!(byte.get_value(), 0xAB);
}

#[test]
fn negative_response_is_assembled_from_the_lookups() {
    let rsid = ServiceId::ecu_reset();
    let nrc = ResponseCode::response_pending();
    assert_eq!(
        UdsNegativeResponse::assemble(3, Some(rsid), Some(nrc)),
        Ok(UdsFrame::NegativeResp(UdsNegativeResponse::new(rsid, nrc, 3)))
    );
    assert_eq!(UdsNegativeResponse::assemble(3, None, Some(nrc)), Err(FrameError::InvalidSid));
    assert_eq!(UdsNegativeResponse::assemble(3, None, None), Err(FrameError::InvalidSid));
    assert_eq!(UdsNegativeResponse::assemble(3, Some(rsid), None), Err(FrameError::InvalidNrc));
}
