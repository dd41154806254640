use rust_mqtt::client::raw::{NetState, Raw, RawError};
use rust_mqtt::eio::ErrorKind;
use rust_mqtt::header::{FixedHeader, PacketType};
use rust_mqtt::io::reader::Progress;
use rust_mqtt::types::reason_code::ReasonCode;
use rust_mqtt::types::var_byte_int::VarByteInt;

/// The client's end of a stream whose other end writes from the test.
struct Pipe {
    data: Vec<u8>,
}

impl Pipe {
    fn new() -> Self {
        Pipe { data: Vec::new() }
    }
}

fn write_all(raw: &mut Raw<'_, Pipe>, bytes: &[u8]) {
    raw.net().unwrap().data.extend_from_slice(bytes);
}

/// Receives until the header is complete. `None` stands for a receive that
/// found the stream dry and was given up, as a timeout would.
fn recv_header(raw: &mut Raw<'_, Pipe>) -> Option<Result<FixedHeader, RawError>> {
    loop {
        if let Some(header) = raw.header() {
            return Some(Ok(header));
        }
        let want = match raw.recv() {
            Ok(Progress::Pending(want)) => want,
            Ok(Progress::Ready(token)) => return Some(Ok(*token.header())),
            Err(e) => return Some(Err(e)),
        };
        let chunk: Vec<u8> = {
            let pipe = raw.net().unwrap();
            if pipe.data.is_empty() {
                return None;
            }
            let n = want.min(pipe.data.len());
            pipe.data.drain(..n).collect()
        };
        if let Err(e) = raw.recv_read(Ok(&chunk)) {
            return Some(Err(e));
        }
    }
}

#[test]
fn recv_header_simple() {
    let mut b = [0; 64];
    let mut c = Raw::new_disconnected(&mut b);
    c.set_net(Pipe::new());

    write_all(&mut c, &[0x10, 0x00, 0x24]);

    let h = recv_header(&mut c).unwrap().unwrap();
    assert_eq!(
        h,
        FixedHeader::new(PacketType::Connect, 0x00, VarByteInt::from(0u8))
    );
    assert_eq!(h.packet_type(), Ok(PacketType::Connect));
    assert_eq!(h.flags(), 0x00);
    assert_eq!(h.remaining_len.value(), 0);
}

#[test]
fn recv_header_with_pause() {
    let mut b = [0; 64];
    let mut c = Raw::new_disconnected(&mut b);
    c.set_net(Pipe::new());

    write_all(&mut c, &[0xE0]);
    assert!(recv_header(&mut c).is_none());
    write_all(&mut c, &[0x80]);
    assert!(recv_header(&mut c).is_none());
    write_all(&mut c, &[0x80]);
    assert!(recv_header(&mut c).is_none());
    write_all(&mut c, &[0x01]);

    let h = recv_header(&mut c).unwrap().unwrap();
    assert_eq!(
        h,
        FixedHeader::new(PacketType::Disconnect, 0x00, VarByteInt::from(16_384u16))
    );
}

#[test]
fn recv_header_uninterrupted_equals_paused() {
    let mut b = [0; 64];
    let mut c = Raw::new_disconnected(&mut b);
    c.set_net(Pipe::new());

    write_all(&mut c, &[0xE0, 0x80, 0x80, 0x01]);

    let h = recv_header(&mut c).unwrap().unwrap();
    assert_eq!(
        h,
        FixedHeader::new(PacketType::Disconnect, 0x00, VarByteInt::from(16_384u16))
    );
    assert_eq!(h.packet_type(), Ok(PacketType::Disconnect));
    assert_eq!(h.flags(), 0);
    assert_eq!(h.remaining_len.value(), 16_384);
}

#[test]
fn recv_header_cancel_no_progres() {
    let mut b = [0; 64];
    let mut c = Raw::new_disconnected(&mut b);
    c.set_net(Pipe::new());

    assert!(recv_header(&mut c).is_none());
    write_all(&mut c, &[0xE0, 0x00]);

    let h = recv_header(&mut c).unwrap().unwrap();
    assert_eq!(
        h,
        FixedHeader::new(PacketType::Disconnect, 0x00, VarByteInt::from(0u8))
    );
}

#[test]
fn recv_header_cancel_type_and_flags_byte() {
    let mut b = [0; 64];
    let mut c = Raw::new_disconnected(&mut b);
    c.set_net(Pipe::new());

    write_all(&mut c, &[0xA0]);
    assert!(recv_header(&mut c).is_none());
    write_all(&mut c, &[0x80, 0x80, 0x80, 0x01]);

    let h = recv_header(&mut c).unwrap().unwrap();
    assert_eq!(
        h,
        FixedHeader::new(
            PacketType::Unsubscribe,
            0x00,
            VarByteInt::try_from(2_097_152u32).unwrap()
        )
    );
}

#[test]
fn recv_header_cancel_single_length_byte() {
    let mut b = [0; 64];
    let mut c = Raw::new_disconnected(&mut b);
    c.set_net(Pipe::new());

    write_all(&mut c, &[0xD7, 0xFF]);
    assert!(recv_header(&mut c).is_none());
    write_all(&mut c, &[0xFF, 0xFF, 0x7F]);

    let h = recv_header(&mut c).unwrap().unwrap();
    assert_eq!(
        h,
        FixedHeader::new(
            PacketType::Pingresp,
            0x07,
            VarByteInt::try_from(VarByteInt::MAX_ENCODABLE).unwrap()
        )
    );
    assert_eq!(h.packet_type(), Ok(PacketType::Pingresp));
    assert_eq!(h.flags(), 0x07);
    assert_eq!(h.remaining_len.value(), 268_435_455);
}

#[test]
fn recv_header_cancel_multi() {
    let mut b = [0; 64];
    let mut c = Raw::new_disconnected(&mut b);
    c.set_net(Pipe::new());

    write_all(&mut c, &[0x68]);
    assert!(recv_header(&mut c).is_none());
    write_all(&mut c, &[0xFF]);
    assert!(recv_header(&mut c).is_none());
    write_all(&mut c, &[0xFF]);
    assert!(recv_header(&mut c).is_none());
    write_all(&mut c, &[0x7F]);

    let h = recv_header(&mut c).unwrap().unwrap();
    assert_eq!(
        h,
        FixedHeader::new(
            PacketType::Pubrel,
            0x08,
            VarByteInt::try_from(2_097_151u32).unwrap()
        )
    );
}

#[test]
fn recv_asks_for_one_header_byte_at_a_time() {
    let mut b = [0; 64];
    let mut c = Raw::new_disconnected(&mut b);
    c.set_net(Pipe::new());

    for byte in [0x30u8, 0x85, 0x80] {
        assert!(matches!(c.recv(), Ok(Progress::Pending(1))));
        // An abandoned read changes nothing: the same byte is asked for again.
        assert!(matches!(c.recv(), Ok(Progress::Pending(1))));
        assert_eq!(c.recv_read(Ok(&[byte])), Ok(()));
        assert!(c.header().is_none());
    }
    assert!(matches!(c.recv(), Ok(Progress::Pending(1))));
    assert_eq!(c.recv_read(Ok(&[0x00])), Ok(()));
    assert_eq!(
        c.header(),
        Some(FixedHeader::new(
            PacketType::Publish,
            0x00,
            VarByteInt::from(5u8)
        ))
    );
    assert!(matches!(c.recv(), Ok(Progress::Pending(5))));
}

#[test]
fn recv_on_a_disconnected_client_fails() {
    let mut b = [0; 64];
    let mut c: Raw<'_, Pipe> = Raw::new_disconnected(&mut b);
    assert!(matches!(c.recv(), Err(RawError::Disconnected)));
    assert!(matches!(c.state(), NetState::Terminated));
    assert!(matches!(c.net(), Err(RawError::Disconnected)));

    c.set_net(Pipe::new());
    c.close_with(Some(ReasonCode::ProtocolError));
    assert!(matches!(c.recv(), Err(RawError::Disconnected)));
    assert!(matches!(
        c.state(),
        NetState::Faulted(_, ReasonCode::ProtocolError)
    ));
}

#[test]
fn recv_invalid_packet_type_faults_with_malformed_packet() {
    let mut b = [0; 64];
    let mut c = Raw::new_disconnected(&mut b);
    c.set_net(Pipe::new());

    assert!(matches!(c.recv(), Ok(Progress::Pending(1))));
    assert_eq!(c.recv_read(Ok(&[0x0F])), Err(RawError::Server));
    assert!(matches!(
        c.state(),
        NetState::Faulted(_, ReasonCode::MalformedPacket)
    ));
    assert!(c.header().is_none());
}

#[test]
fn recv_fourth_length_byte_with_continuation_faults() {
    let mut b = [0; 64];
    let mut c = Raw::new_disconnected(&mut b);
    c.set_net(Pipe::new());

    for byte in [0x30u8, 0x80, 0x80, 0x80] {
        assert!(matches!(c.recv(), Ok(Progress::Pending(1))));
        assert_eq!(c.recv_read(Ok(&[byte])), Ok(()));
    }
    assert!(matches!(c.recv(), Ok(Progress::Pending(1))));
    assert_eq!(c.recv_read(Ok(&[0x80])), Err(RawError::Server));
    assert!(matches!(
        c.state(),
        NetState::Faulted(_, ReasonCode::MalformedPacket)
    ));
}

#[test]
fn recv_end_of_stream_terminates() {
    let mut b = [0; 64];
    let mut c = Raw::new_disconnected(&mut b);
    c.set_net(Pipe::new());

    assert!(matches!(c.recv(), Ok(Progress::Pending(1))));
    assert_eq!(c.recv_read(Ok(&[0x30])), Ok(()));
    assert!(matches!(c.recv(), Ok(Progress::Pending(1))));
    assert_eq!(
        c.recv_read(Ok(&[])),
        Err(RawError::Network(ErrorKind::NotConnected))
    );
    assert!(matches!(c.state(), NetState::Terminated));
}

#[test]
fn recv_transport_error_terminates() {
    let mut b = [0; 64];
    let mut c = Raw::new_disconnected(&mut b);
    c.set_net(Pipe::new());

    assert!(matches!(c.recv(), Ok(Progress::Pending(1))));
    assert_eq!(
        c.recv_read(Err(ErrorKind::ConnectionReset)),
        Err(RawError::Network(ErrorKind::ConnectionReset))
    );
    assert!(matches!(c.state(), NetState::Terminated));
}

#[test]
fn recv_body_larger_than_buffer_faults() {
    let mut b = [0; 8];
    let mut c = Raw::new_disconnected(&mut b);
    c.set_net(Pipe::new());

    write_all(&mut c, &[0x30, 0x09]);
    let h = recv_header(&mut c).unwrap().unwrap();
    assert_eq!(h.remaining_len.value(), 9);
    assert!(matches!(c.recv(), Err(RawError::RxBufferExceeded)));
    assert!(matches!(
        c.state(),
        NetState::Faulted(_, ReasonCode::ImplementationSpecificError)
    ));
    assert!(c.header().is_none());
}
