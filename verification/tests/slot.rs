use uds_client_rs::codes::{ResponseCode, ServiceId};
use uds_client_rs::error::DiagError;
use uds_client_rs::frame::{FrameError, UdsFrame, UdsSingleFrame};
use uds_client_rs::response::{Response, ResponseSlot};

fn pending(rsid: ServiceId) -> Response {
    Response::Error(DiagError::ECUError {
        code: ResponseCode::response_pending(),
        rsid,
        def: None,
    })
}

fn single_6a() -> Response {
    Response::Frame(UdsFrame::Single(UdsSingleFrame {
        size: 4,
        sid: 0x6A,
        did: Some(0x01B0),
        payload: vec![0x99],
    }))
}

#[test]
fn pending_retry() {
    let mut slot = ResponseSlot::new(Some(1000));
    let mut stash = None;
    slot.update_response(vec![0x03, 0x7F, 0x2A, 0x78]);
    assert_eq!(slot.wait_for_response(&mut stash, false), None);
    assert_eq!(stash, Some(pending(ServiceId::read_data_by_periodic_identifier())));
    slot.update_response(vec![0x04, 0x6A, 0x01, 0xB0, 0x99]);
    assert_eq!(slot.wait_for_response(&mut stash, false), Some(single_6a()));
}

#[test]
fn pending_then_timeout_returns_the_pending_answer() {
    let mut slot = ResponseSlot::default();
    let mut stash = None;
    slot.update_response(vec![0x03, 0x7F, 0x2A, 0x78]);
    assert_eq!(slot.wait_for_response(&mut stash, false), None);
    assert_eq!(slot.wait_for_response(&mut stash, false), None);
    assert_eq!(
        slot.wait_for_response(&mut stash, true),
        Some(pending(ServiceId::read_data_by_periodic_identifier()))
    );
    assert_eq!(stash, None);
}

#[test]
fn pending_twice_keeps_the_later() {
    let mut slot = ResponseSlot::default();
    let mut stash = None;
    slot.update_response(vec![0x03, 0x7F, 0x2A, 0x78]);
    assert_eq!(slot.wait_for_response(&mut stash, false), None);
    slot.update_response(vec![0x03, 0x7F, 0x11, 0x78]);
    assert_eq!(slot.wait_for_response(&mut stash, false), None);
    assert_eq!(slot.wait_for_response(&mut stash, true), Some(pending(ServiceId::ecu_reset())));
}

#[test]
fn timeout_without_answer() {
    let mut slot = ResponseSlot::new(None);
    let mut stash = None;
    assert_eq!(slot.wait_for_response(&mut stash, false), None);
    assert_eq!(
        slot.wait_for_response(&mut stash, true),
        Some(Response::Error(DiagError::Timeout))
    );
}

#[test]
fn last_update_wins() {
    let mut slot = ResponseSlot::default();
    let mut stash = None;
    slot.update_response(vec![0x02, 0x51, 0x40]);
    slot.update_response(vec![0x04, 0x6A, 0x01, 0xB0, 0x99]);
    assert_eq!(slot.wait_for_response(&mut stash, false), Some(single_6a()));
    assert_eq!(slot.wait_for_response(&mut stash, false), None);
}

#[test]
fn an_arrival_beats_the_timeout() {
    let mut slot = ResponseSlot::default();
    let mut stash = None;
    slot.update_response(vec![0x04, 0x6A, 0x01, 0xB0, 0x99]);
    assert_eq!(slot.wait_for_response(&mut stash, true), Some(single_6a()));
}

#[test]
fn negative_response_is_the_ecu_error() {
    let mut slot = ResponseSlot::default();
    let mut stash = None;
    slot.update_response(vec![0x03, 0x7F, 0x11, 0x22]);
    assert_eq!(
        slot.wait_for_response(&mut stash, false),
        Some(Response::Error(DiagError::ECUError {
            code: ResponseCode::new(0x22).unwrap(),
            rsid: ServiceId::ecu_reset(),
            def: None,
        }))
    );
}

#[test]
fn undecodable_bytes_are_a_frame_error() {
    let mut slot = ResponseSlot::default();
    let mut stash = None;
    slot.update_response(vec![0x40, 0x00]);
    assert_eq!(
        slot.wait_for_response(&mut stash, false),
        Some(Response::Error(DiagError::FrameError { error: FrameError::InvalidFrameType }))
    );
    slot.update_response(vec![]);
    assert_eq!(
        slot.get(),
        Some(Response::Error(DiagError::FrameError { error: FrameError::InvalidCanLength }))
    );
    slot.update_response(vec![0x03, 0x7F, 0x2A]);
    assert_eq!(
        slot.get(),
        Some(Response::Error(DiagError::FrameError { error: FrameError::InvalidSize }))
    );
}

#[test]
fn a_fresh_slot_holds_not_supported() {
    let mut slot = ResponseSlot::new(Some(250));
    assert_eq!(slot.timeout_ms(), 250);
    assert!(!slot.is_notified());
    assert_eq!(slot.get(), None);
    assert_eq!(ResponseSlot::new(None).timeout_ms(), 1000);
    assert_eq!(ResponseSlot::default().timeout_ms(), 1000);
}

#[test]
fn get_takes_the_wake_once() {
    let mut slot = ResponseSlot::default();
    slot.update_response(vec![0x03, 0x7F, 0x2A, 0x78]);
    assert!(slot.is_notified());
    assert_eq!(slot.get(), Some(pending(ServiceId::read_data_by_periodic_identifier())));
    assert!(!slot.is_notified());
    assert_eq!(slot.get(), None);
}

#[test]
fn response_into_result() {
    assert_eq!(
        single_6a().into_result(),
        Ok(UdsFrame::Single(UdsSingleFrame {
            size: 4,
            sid: 0x6A,
            did: Some(0x01B0),
            payload: vec![0x99],
        }))
    );
    assert_eq!(Response::Error(DiagError::Timeout).into_result(), Err(DiagError::Timeout));
    assert!(pending(ServiceId::ecu_reset()).is_pending());
    assert!(!single_6a().is_pending());
    assert!(!Response::Error(DiagError::Timeout).is_pending());
    assert_eq!(Response::from_vec(vec![0x04, 0x6A, 0x01, 0xB0, 0x99]), single_6a());
    assert_eq!(single_6a().clone(), single_6a());
}

#[test]
fn response_of_a_decoded_payload() {
    let frame = UdsFrame::Single(UdsSingleFrame {
        size: 4,
        sid: 0x6A,
        did: Some(0x01B0),
        payload: vec![0x99],
    });
    assert_eq!(Response::from_decoded(Ok(frame)), single_6a());
    assert_eq!(
        Response::from_decoded(Err(FrameError::InvalidSize)),
        Response::Error(DiagError::FrameError { error: FrameError::InvalidSize })
    );
    let negative = UdsFrame::from_vec(vec![0x03, 0x7F, 0x11, 0x78]);
    assert_eq!(Response::from_decoded(negative), pending(ServiceId::ecu_reset()));
}
