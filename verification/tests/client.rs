use uds_client_rs::client::UdsClient;
use uds_client_rs::error::DiagError;
use uds_client_rs::frame::{UdsFlowControlFrame, UdsFrame, UdsSingleFrame};
use uds_client_rs::socket_can::CanSocketTx;

/// A channel that keeps what it is handed.
struct Recorder {
    sent: Vec<(u32, Vec<u8>)>,
    fail: bool,
}

impl Recorder {
    fn new() -> Self {
        Recorder { sent: Vec::new(), fail: false }
    }
}

impl CanSocketTx for Recorder {
    fn transmit(&mut self, id: u32, data: &[u8]) -> Result<(), DiagError> {
        self.sent.push((id, data.to_vec()));
        if self.fail {
            Err(DiagError::HardwareError)
        } else {
            Ok(())
        }
    }
}

#[test]
fn send_command_puts_ecu_reset_on_the_wire() {
    let mut client = UdsClient::new(Recorder::new(), 0x784);
    assert_eq!(client.send_command(0x02, 0x11, &[0x40]), Ok(()));
    assert_eq!(client.channel().sent, vec![(0x784u32, vec![0x02u8, 0x11, 0x40])]);
}

#[test]
fn send_command_without_arguments() {
    let mut client = UdsClient::new(Recorder::new(), 0x1FFF_FFFF);
    assert_eq!(client.id(), 0x1FFF_FFFF);
    assert_eq!(client.send_command(0x01, 0x3E, &[]), Ok(()));
    assert_eq!(client.into_channel().sent, vec![(0x1FFF_FFFFu32, vec![0x01u8, 0x3E])]);
}

#[test]
fn channel_failure_is_a_channel_error() {
    let mut channel = Recorder::new();
    channel.fail = true;
    let mut client = UdsClient::new(channel, 0x784);
    assert_eq!(client.send_raw(&[0x02, 0x11, 0x40]), Err(DiagError::ChannelError));
    assert_eq!(client.send_command(0x02, 0x11, &[0x41]), Err(DiagError::ChannelError));
    assert_eq!(client.channel().sent.len(), 2);
}

#[test]
fn send_frame_encodes_first() {
    let mut client = UdsClient::new(Recorder::new(), 0x784);
    let fc = UdsFlowControlFrame::new(0x00, 0x00, 0x7F, Vec::new()).unwrap();
    assert_eq!(client.send_frame(UdsFrame::FlowControl(fc)), Ok(()));
    assert_eq!(client.channel().sent, vec![(0x784u32, vec![0x30u8, 0x00, 0x7F])]);
}

#[test]
fn send_frame_refuses_what_cannot_be_encoded() {
    let mut client = UdsClient::new(Recorder::new(), 0x784);
    let frame = UdsSingleFrame { size: 9, sid: 0x22, did: None, payload: vec![0; 8] };
    assert_eq!(
        client.send_frame(UdsFrame::Single(frame)),
        Err(DiagError::WrongMessage { want: None, received: None })
    );
    assert!(client.channel().sent.is_empty());
}
