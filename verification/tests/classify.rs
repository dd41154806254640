use rust_mqtt::client::raw::RawError;
use rust_mqtt::eio::ErrorKind;
use rust_mqtt::io::body::BodyReadError;
use rust_mqtt::io::err::{DecodeError, ReadError, WriteError};
use rust_mqtt::io::reader::{InsufficientLen, ReaderError};
use rust_mqtt::packet::{RxError, TxError};
use rust_mqtt::types::reason_code::ReasonCode;

type Class = (RawError, Option<ReasonCode>);

#[test]
fn reader_errors() {
    assert_eq!(
        Class::from(ReaderError::Read(ErrorKind::ConnectionReset)),
        (RawError::Network(ErrorKind::ConnectionReset), None)
    );
    assert_eq!(
        Class::from(ReaderError::EOF),
        (RawError::Network(ErrorKind::NotConnected), None)
    );
    assert_eq!(
        Class::from(ReaderError::InvalidPacketType),
        (RawError::Server, Some(ReasonCode::MalformedPacket))
    );
    assert_eq!(
        Class::from(ReaderError::InvalidVarByteInt),
        (RawError::Server, Some(ReasonCode::MalformedPacket))
    );
    assert_eq!(
        Class::from(ReaderError::BufferExceeded),
        (
            RawError::RxBufferExceeded,
            Some(ReasonCode::ImplementationSpecificError)
        )
    );
}

#[test]
fn rx_errors() {
    assert_eq!(
        Class::from(RxError::InsufficientConstSpace),
        (
            RawError::ConstSpace,
            Some(ReasonCode::ImplementationSpecificError)
        )
    );
    assert_eq!(
        Class::from(RxError::MalformedPacket),
        (RawError::Server, Some(ReasonCode::MalformedPacket))
    );
    assert_eq!(
        Class::from(RxError::ProtocolError),
        (RawError::Server, Some(ReasonCode::ProtocolError))
    );
}

#[test]
fn tx_errors() {
    assert_eq!(
        Class::from(TxError::<ErrorKind>::WriteZero),
        (RawError::Network(ErrorKind::WriteZero), None)
    );
    assert_eq!(
        Class::from(TxError::Write(ErrorKind::TimedOut)),
        (RawError::Network(ErrorKind::TimedOut), None)
    );
    assert_eq!(
        Class::from(TxError::<ErrorKind>::RemainingLenExceeded),
        (RawError::TxPacketTooLong, None)
    );
}

#[test]
fn error_conversions() {
    assert_eq!(
        ReaderError::from(ErrorKind::Other),
        ReaderError::Read(ErrorKind::Other)
    );
    assert_eq!(DecodeError::from(InsufficientLen), DecodeError::MalformedPacket);
    assert_eq!(RxError::from(InsufficientLen), RxError::MalformedPacket);
    assert_eq!(
        RxError::from(DecodeError::MalformedPacket),
        RxError::MalformedPacket
    );
    assert_eq!(
        RxError::from(DecodeError::ProtocolError),
        RxError::ProtocolError
    );
    assert_eq!(WriteError::from(3u8), WriteError::Write(3u8));
    assert_eq!(
        TxError::from(WriteError::<u8>::WriteZero),
        TxError::WriteZero
    );
    assert_eq!(TxError::from(WriteError::Write(3u8)), TxError::Write(3u8));
    assert_eq!(ReadError::from(3u8), ReadError::Read(3u8));
}

#[test]
fn body_read_error_conversions_and_kinds() {
    type E = BodyReadError<ErrorKind, ()>;
    assert_eq!(E::from(ErrorKind::BrokenPipe), E::Read(ErrorKind::BrokenPipe));
    assert_eq!(
        E::from(ReadError::Read(ErrorKind::BrokenPipe)),
        E::Read(ErrorKind::BrokenPipe)
    );
    assert_eq!(E::from(ReadError::UnexpectedEOF), E::UnexpectedEOF);
    assert_eq!(E::from(ReadError::MalformedPacket), E::MalformedPacket);
    assert_eq!(E::from(ReadError::ProtocolError), E::ProtocolError);
    assert_eq!(E::from(ReadError::InvalidTopicName), E::InvalidTopicName);

    assert_eq!(E::Read(ErrorKind::TimedOut).kind(), ErrorKind::TimedOut);
    assert_eq!(E::Buffer(()).kind(), ErrorKind::OutOfMemory);
    assert_eq!(E::UnexpectedEOF.kind(), ErrorKind::Other);
    assert_eq!(E::InsufficientRemainingLen.kind(), ErrorKind::InvalidData);
    assert_eq!(E::MalformedPacket.kind(), ErrorKind::InvalidData);
    assert_eq!(E::ProtocolError.kind(), ErrorKind::InvalidData);
    assert_eq!(E::InvalidTopicName.kind(), ErrorKind::InvalidData);
}

#[test]
fn reason_code_values() {
    assert_eq!(ReasonCode::Success.value(), 0x00);
    assert_eq!(ReasonCode::MalformedPacket.value(), 0x81);
    assert_eq!(ReasonCode::ProtocolError.value(), 0x82);
    assert_eq!(ReasonCode::ImplementationSpecificError.value(), 0x83);
    assert_eq!(ReasonCode::WildcardSubscriptionsNotSupported.value(), 0xA2);
    assert!(!ReasonCode::Success.is_error());
    assert!(!ReasonCode::ReAuthenticate.is_error());
    assert!(ReasonCode::UnspecifiedError.is_error());
    assert!(ReasonCode::MalformedPacket.is_error());
}
