use rust_mqtt::eio::ErrorKind;
use rust_mqtt::header::{FixedHeader, PacketType};
use rust_mqtt::io::reader::{
    InsufficientLen, PacketDecodeToken, PacketDecoder, PacketReceiver, Progress, ReaderError,
};
use rust_mqtt::types::var_byte_int::VarByteInt;

fn publish_header(len: u8) -> FixedHeader {
    FixedHeader::new(PacketType::Publish, 0x00, VarByteInt::from(len))
}

#[test]
fn feed_whole_packet() {
    let mut buf = [0u8; 16];
    let mut r = PacketReceiver::new(&mut buf);
    assert_eq!(r.capacity(), 16);

    let (taken, result) = r.feed(&[0x30, 0x03, 0xAA, 0xBB, 0xCC, 0x30, 0x00]);
    assert_eq!(taken, 5);
    let token = result.unwrap().unwrap();
    assert_eq!(*token.header(), publish_header(3));
    assert!(r.holds(&token));

    let mut d = r.into_decoder(token);
    assert_eq!(d.remaining_len(), 3);
    assert_eq!(d.take_bytes(3).unwrap(), &[0xAA, 0xBB, 0xCC]);
}

#[test]
fn feed_in_pieces_equals_feed_at_once() {
    let stream = [0x32u8, 0x05, 1, 2, 3, 4, 5];
    for cut in 0..=stream.len() {
        let mut buf = [0u8; 16];
        let mut r = PacketReceiver::new(&mut buf);
        let (first, result) = r.feed(&stream[..cut]);
        assert_eq!(first, cut);
        if cut < stream.len() {
            assert!(result.unwrap().is_none());
        }
        let (second, result) = r.feed(&stream[cut..]);
        assert_eq!(first + second, stream.len());
        let token = result.unwrap().unwrap();
        assert_eq!(
            *token.header(),
            FixedHeader::new(PacketType::Publish, 0x02, VarByteInt::from(5u8))
        );
        let d = r.into_decoder(token);
        assert_eq!(d.peek(), &[1, 2, 3, 4, 5]);
    }
}

#[test]
fn feed_byte_by_byte() {
    let stream = [0xE0u8, 0x02, 0x81, 0x00];
    let mut buf = [0u8; 5];
    let mut r = PacketReceiver::new(&mut buf);
    for (i, byte) in stream.iter().enumerate() {
        let (taken, result) = r.feed(&[*byte]);
        assert_eq!(taken, 1);
        let token = result.unwrap();
        if i + 1 < stream.len() {
            assert!(token.is_none());
        } else {
            let token = token.unwrap();
            assert_eq!(token.header().packet_type(), Ok(PacketType::Disconnect));
            assert_eq!(r.into_decoder(token).peek(), &[0x81, 0x00]);
        }
    }
}

#[test]
fn receiver_is_ready_for_the_next_packet_after_decoding() {
    let mut buf = [0u8; 16];
    let mut r = PacketReceiver::new(&mut buf);
    let stream = [0x30u8, 0x02, 0x01, 0x02, 0xC0, 0x00];

    let (taken, result) = r.feed(&stream);
    assert_eq!(taken, 4);
    let token = result.unwrap().unwrap();
    {
        let d = r.into_decoder(token);
        assert_eq!(d.header().packet_type(), Ok(PacketType::Publish));
        assert_eq!(d.peek(), &[0x01, 0x02]);
    }
    assert!(r.header().is_none());
    assert_eq!(r.initialized(), 0);

    let (taken, result) = r.feed(&stream[4..]);
    assert_eq!(taken, 2);
    let token = result.unwrap().unwrap();
    assert_eq!(token.header().packet_type(), Ok(PacketType::Pingreq));
    assert_eq!(r.into_decoder(token).remaining_len(), 0);
}

#[test]
fn poll_repeats_the_token_until_the_packet_is_decoded() {
    let mut buf = [0u8; 16];
    let mut r = PacketReceiver::new(&mut buf);
    let (_, result) = r.feed(&[0x30, 0x01, 0x07]);
    let first = result.unwrap().unwrap();
    let second = match r.poll() {
        Ok(Progress::Ready(token)) => token,
        _ => panic!("the packet is buffered"),
    };
    assert_eq!(first.header(), second.header());
    assert!(r.holds(&second));
    let (taken, result) = r.feed(&[0xFF]);
    assert_eq!(taken, 0);
    assert!(r.holds(&result.unwrap().unwrap()));
}

#[test]
fn holds_refuses_a_foreign_token() {
    let mut buf = [0u8; 16];
    let mut r = PacketReceiver::new(&mut buf);
    assert!(!r.holds(&PacketDecodeToken::new(publish_header(0))));

    let (_, result) = r.feed(&[0x30, 0x01]);
    assert!(result.unwrap().is_none());
    assert!(!r.holds(&PacketDecodeToken::new(publish_header(1))));

    let (_, result) = r.feed(&[0x07]);
    let token = result.unwrap().unwrap();
    assert!(r.holds(&token));
    assert!(!r.holds(&PacketDecodeToken::new(publish_header(2))));
    assert!(!r.holds(&PacketDecodeToken::new(FixedHeader::new(
        PacketType::Puback,
        0x00,
        VarByteInt::from(1u8)
    ))));
}

#[test]
fn advance_steps() {
    let mut buf = [0u8; 8];
    let mut r = PacketReceiver::new(&mut buf);
    assert!(matches!(r.poll(), Ok(Progress::Pending(1))));
    assert_eq!(r.advance(Ok(&[0x30])), Ok(()));
    assert_eq!(r.initialized(), 1);
    assert!(matches!(r.poll(), Ok(Progress::Pending(1))));
    assert_eq!(r.advance(Ok(&[0x04])), Ok(()));
    assert_eq!(r.header(), Some(publish_header(4)));
    assert_eq!(r.initialized(), 0);
    assert!(matches!(r.poll(), Ok(Progress::Pending(4))));
    assert_eq!(r.advance(Ok(&[1, 2, 3])), Ok(()));
    assert_eq!(r.initialized(), 3);
    assert!(matches!(r.poll(), Ok(Progress::Pending(1))));
    assert_eq!(r.advance(Ok(&[4])), Ok(()));
    assert!(matches!(r.poll(), Ok(Progress::Ready(_))));
}

#[test]
fn invalid_packet_type_discards_progress() {
    let mut buf = [0u8; 8];
    let mut r = PacketReceiver::new(&mut buf);
    assert_eq!(r.advance(Ok(&[0x00])), Err(ReaderError::InvalidPacketType));
    assert_eq!(r.initialized(), 0);
    assert!(r.header().is_none());
    let (taken, result) = r.feed(&[0x0A, 0x30]);
    assert_eq!(taken, 1);
    assert_eq!(result.err(), Some(ReaderError::InvalidPacketType));
}

#[test]
fn invalid_length_discards_progress() {
    let mut buf = [0u8; 8];
    let mut r = PacketReceiver::new(&mut buf);
    let (taken, result) = r.feed(&[0x30, 0xFF, 0xFF, 0xFF, 0xFF, 0x01]);
    assert_eq!(taken, 5);
    assert_eq!(result.err(), Some(ReaderError::InvalidVarByteInt));
    assert_eq!(r.initialized(), 0);
    assert!(r.header().is_none());
    assert!(matches!(r.poll(), Ok(Progress::Pending(1))));
}

#[test]
fn end_of_stream_discards_progress() {
    let mut buf = [0u8; 8];
    let mut r = PacketReceiver::new(&mut buf);
    let (_, result) = r.feed(&[0x30, 0x04, 0x01]);
    assert!(result.unwrap().is_none());
    assert_eq!(r.advance(Ok(&[])), Err(ReaderError::EOF));
    assert!(r.header().is_none());
    assert_eq!(r.initialized(), 0);
}

#[test]
fn failed_read_keeps_progress() {
    let mut buf = [0u8; 8];
    let mut r = PacketReceiver::new(&mut buf);
    let (_, result) = r.feed(&[0x30, 0x04, 0x01]);
    assert!(result.unwrap().is_none());
    assert_eq!(
        r.advance(Err(ErrorKind::TimedOut)),
        Err(ReaderError::Read(ErrorKind::TimedOut))
    );
    assert_eq!(r.header(), Some(publish_header(4)));
    assert_eq!(r.initialized(), 1);
    let (taken, result) = r.feed(&[0x02, 0x03, 0x04]);
    assert_eq!(taken, 3);
    let token = result.unwrap().unwrap();
    assert_eq!(r.into_decoder(token).peek(), &[1, 2, 3, 4]);
}

#[test]
fn buffer_exceeded() {
    let mut buf = [0u8; 5];
    let mut r = PacketReceiver::new(&mut buf);
    let (taken, result) = r.feed(&[0x30, 0x06, 0x01]);
    assert_eq!(taken, 2);
    assert_eq!(result.err(), Some(ReaderError::BufferExceeded));
    assert!(r.header().is_none());

    let (taken, result) = r.feed(&[0x30, 0x05, 1, 2, 3, 4, 5]);
    assert_eq!(taken, 7);
    assert!(result.unwrap().is_some());
}

#[test]
fn decoder_take_and_skip() {
    let body = [1u8, 2, 3, 4, 5, 6];
    let token = PacketDecodeToken::new(publish_header(6));
    let mut d = PacketDecoder::new(token, &body);
    assert_eq!(*d.header(), publish_header(6));
    assert_eq!(d.remaining_len(), 6);
    assert_eq!(d.take_bytes(2), Ok(&body[0..2]));
    assert_eq!(d.remaining_len(), 4);
    assert_eq!(d.skip(1), Ok(()));
    assert_eq!(d.peek(), &[4, 5, 6]);
    assert_eq!(d.take_bytes(0), Ok(&body[0..0]));
    assert_eq!(d.take_bytes(4), Err(InsufficientLen));
    assert_eq!(d.skip(4), Err(InsufficientLen));
    assert_eq!(d.remaining_len(), 3);
    assert_eq!(d.take_bytes(usize::MAX), Err(InsufficientLen));
    assert_eq!(d.skip(usize::MAX), Err(InsufficientLen));
    assert_eq!(d.skip(3), Ok(()));
    assert_eq!(d.remaining_len(), 0);
    assert_eq!(d.take_bytes(1), Err(InsufficientLen));
    assert_eq!(d.skip(0), Ok(()));
}
