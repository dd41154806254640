use rust_mqtt::io::body::{BodyReadError, BodyReader, InsufficientSpace};
use rust_mqtt::io::err::ReadError;

#[test]
fn body_read_array() {
    let s = b"abcdefghijklmnopqrstuvwxyz";
    let mut r = BodyReader::new(s, 26);
    let a = r.read_array::<26>().unwrap();
    assert_eq!(&a, b"abcdefghijklmnopqrstuvwxyz");
}

#[test]
fn body_read_u8() {
    let mut r = BodyReader::new(b"\x12", 1);
    let v = r.read_u8().unwrap();
    assert_eq!(v, 0x12);
}

#[test]
fn body_read_u16() {
    let mut r = BodyReader::new(b"\x01\x02", 2);
    let v = r.read_u16().unwrap();
    assert_eq!(v, 0x0102);
}

#[test]
fn body_read_u32() {
    let mut r = BodyReader::new(b"\x01\x02\x03\x04", 4);
    let v = r.read_u32().unwrap();
    assert_eq!(v, 0x01020304);
}

#[test]
fn body_read_bool() {
    let mut r_false = BodyReader::new(b"\x00", 1);
    let v = r_false.read_bool().unwrap();
    assert!(!v);

    let mut r_true = BodyReader::new(b"\x01", 1);
    let v = r_true.read_bool().unwrap();
    assert!(v);

    let mut r_bad = BodyReader::new(b"\x02", 1);
    let res = r_bad.read_bool();
    assert!(matches!(res, Err(ReadError::MalformedPacket)));
}

#[test]
fn read_var_byte_int() {
    let mut r = BodyReader::new(&[0x80, 0x01], 2);
    let v = r.read_var_byte_int().unwrap();
    assert_eq!(v.value(), 128);
}

#[test]
fn body_read_binary() {
    let mut b = [0; 64];
    let mut r = BodyReader::new(&[0x00, 0x05, 0x01, 0x02, 0x03, 0x04, 0xFF], 7);
    let v = r.read_binary(&mut b).unwrap();
    assert_eq!(v.as_bytes(), &[0x01, 0x02, 0x03, 0x04, 0xFF]);
}

#[test]
fn body_read_string() {
    let mut b = [0; 64];
    let mut r = BodyReader::new(
        &[
            0x00, 0x09, b'r', b'u', b's', b't', b'-', b'm', b'q', b't', b't',
        ],
        11,
    );
    let v = r.read_string(&mut b).unwrap();
    assert_eq!(v.as_str(), "rust-mqtt");
}

#[test]
fn body_read_stream() {
    let s = [
        0x42,                                    // u8
        0x01, 0x02,                              // u16
        0x01,                                    // bool (true)
        0xDE, 0xAD, 0xBE, 0xEF,                  // u32
        0x80, 0x01,                              // varbyteint
        0x00, 0x03, 0xAA, 0xBB, 0xCC,            // binary
        0x00, 0x04, b't', b'e', b's', b't',      // string
        0x11, 0x22, 0x33,                        // array[3]
    ];
    let mut b1 = [0; 64];
    let mut b2 = [0; 64];

    let mut r = BodyReader::new(&s, 24);

    let v_u8 = r.read_u8().unwrap();
    assert_eq!(v_u8, 0x42);

    let v_u16 = r.read_u16().unwrap();
    assert_eq!(v_u16, 0x0102);

    let v_bool = r.read_bool().unwrap();
    assert!(v_bool);

    let v_u32 = r.read_u32().unwrap();
    assert_eq!(v_u32, 0xDEADBEEF);

    let v_varbyteint = r.read_var_byte_int().unwrap();
    assert_eq!(v_varbyteint.value(), 128);

    let v_binary = r.read_binary(&mut b1).unwrap();
    assert_eq!(v_binary.as_bytes(), &[0xAA, 0xBB, 0xCC]);

    let v_string = r.read_string(&mut b2).unwrap();
    assert_eq!(v_string.as_str(), "test");

    let v_array = r.read_array::<3>().unwrap();
    assert_eq!(v_array, [0x11, 0x22, 0x33]);
    assert_eq!(r.remaining_len(), 0);
}

#[test]
fn body_read_eof() {
    let mut b = [0; 64];

    let mut r = BodyReader::new(b"abcdefghijklmno", 16);
    let e = r.read_array::<16>().unwrap_err();
    assert_eq!(e, ReadError::UnexpectedEOF);

    let mut r = BodyReader::new(b"", 1);
    let e = r.read_u8().unwrap_err();
    assert_eq!(e, ReadError::UnexpectedEOF);

    let mut r = BodyReader::new(b"\x80", 2);
    let e = r.read_var_byte_int().unwrap_err();
    assert_eq!(e, ReadError::UnexpectedEOF);

    let mut r = BodyReader::new(b"\x00", 2);
    let e = r.read_u16().unwrap_err();
    assert_eq!(e, ReadError::UnexpectedEOF);

    let mut r = BodyReader::new(b"\x00\x00\x00", 4);
    let e = r.read_u32().unwrap_err();
    assert_eq!(e, ReadError::UnexpectedEOF);

    // MqttBinary - EOF when reading length
    let mut r = BodyReader::new(b"\x00", 2);
    let e = r.read_binary(&mut b).unwrap_err();
    assert_eq!(e, ReadError::UnexpectedEOF);

    // MqttBinary - EOF when reading data
    let mut r = BodyReader::new(&[0x00, 0x05, 0x01, 0x02], 7);
    let e = r.read_binary(&mut b).unwrap_err();
    assert_eq!(e, ReadError::UnexpectedEOF);

    // MqttString - EOF when reading length
    let mut r = BodyReader::new(b"\x00", 2);
    let e = r.read_string(&mut b).unwrap_err();
    assert_eq!(e, ReadError::UnexpectedEOF);

    // MqttString - EOF when reading data
    let mut r = BodyReader::new(&[0x00, 0x04, b't', b'e'], 6);
    let e = r.read_string(&mut b).unwrap_err();
    assert_eq!(e, ReadError::UnexpectedEOF);
}

#[test]
fn body_read_insufficient_remaining_len_array() {
    let mut r = BodyReader::new(b"abcdefghijklmno", 15);
    let e = r.read_array::<16>().unwrap_err();
    assert_eq!(e, ReadError::Read(BodyReadError::InsufficientRemainingLen));

    let mut r = BodyReader::new(b"abcdefghijklmnop", 15);
    let e = r.read_array::<16>().unwrap_err();
    assert_eq!(e, ReadError::Read(BodyReadError::InsufficientRemainingLen));
}

#[test]
fn body_read_insufficient_remaining_len_u8() {
    let mut r = BodyReader::new(b"", 0);
    let e = r.read_u8().unwrap_err();
    assert_eq!(e, ReadError::Read(BodyReadError::InsufficientRemainingLen));

    let mut r = BodyReader::new(b"", 0);
    let e = r.read_u8().unwrap_err();
    assert_eq!(e, ReadError::Read(BodyReadError::InsufficientRemainingLen));
}

#[test]
fn body_read_insufficient_remaining_len_u16() {
    let mut r = BodyReader::new(b"\x00", 1);
    let e = r.read_u16().unwrap_err();
    assert_eq!(e, ReadError::Read(BodyReadError::InsufficientRemainingLen));

    let mut r = BodyReader::new(b"\x00\x00", 1);
    let e = r.read_u16().unwrap_err();
    assert_eq!(e, ReadError::Read(BodyReadError::InsufficientRemainingLen));
}

#[test]
fn body_read_insufficient_remaining_len_u32() {
    let mut r = BodyReader::new(b"\x00\x00\x00", 3);
    let e = r.read_u32().unwrap_err();
    assert_eq!(e, ReadError::Read(BodyReadError::InsufficientRemainingLen));

    let mut r = BodyReader::new(b"\x00\x00\x00\x00", 3);
    let e = r.read_u32().unwrap_err();
    assert_eq!(e, ReadError::Read(BodyReadError::InsufficientRemainingLen));
}

#[test]
fn read_insufficient_remaining_len_var_byte_int() {
    let mut r = BodyReader::new(b"", 0);
    let e = r.read_var_byte_int().unwrap_err();
    assert_eq!(e, ReadError::Read(BodyReadError::InsufficientRemainingLen));

    let mut r = BodyReader::new(b"\x80", 1);
    let e = r.read_var_byte_int().unwrap_err();
    assert_eq!(e, ReadError::Read(BodyReadError::InsufficientRemainingLen));
}

#[test]
fn body_read_insufficient_remaining_len_binary() {
    let mut b = [0; 64];

    // Insufficient remaining length when reading length prefix
    let mut r = BodyReader::new(&[0x00, 0x05, 0x01, 0x02, 0x03, 0x04, 0xFF], 1);
    let e = r.read_binary(&mut b).unwrap_err();
    assert_eq!(e, ReadError::Read(BodyReadError::InsufficientRemainingLen));

    // Insufficient remaining length when reading data
    let mut r = BodyReader::new(&[0x00, 0x05, 0x01, 0x02, 0x03, 0x04, 0xFF], 6);
    let e = r.read_binary(&mut b).unwrap_err();
    assert_eq!(e, ReadError::Read(BodyReadError::InsufficientRemainingLen));

    // Insufficient remaining length with exact length prefix bytes but not enough for data
    let mut r = BodyReader::new(&[0x00, 0x05, 0x01, 0x02, 0x03, 0x04, 0xFF], 2);
    let e = r.read_binary(&mut b).unwrap_err();
    assert_eq!(e, ReadError::Read(BodyReadError::InsufficientRemainingLen));
}

#[test]
fn body_read_insufficient_remaining_len_string() {
    let mut b = [0; 64];

    // Insufficient remaining length when reading length prefix
    let mut r = BodyReader::new(&[0x00, 0x04, b't', b'e', b's', b't'], 1);
    let e = r.read_string(&mut b).unwrap_err();
    assert_eq!(e, ReadError::Read(BodyReadError::InsufficientRemainingLen));

    // Insufficient remaining length when reading data
    let mut r = BodyReader::new(&[0x00, 0x04, b't', b'e', b's', b't'], 5);
    let e = r.read_string(&mut b).unwrap_err();
    assert_eq!(e, ReadError::Read(BodyReadError::InsufficientRemainingLen));

    // Insufficient remaining length with exact length prefix bytes but not enough for data
    let mut r = BodyReader::new(&[0x00, 0x04, b't', b'e', b's', b't'], 2);
    let e = r.read_string(&mut b).unwrap_err();
    assert_eq!(e, ReadError::Read(BodyReadError::InsufficientRemainingLen));
}

#[test]
fn read_read_eof() {
    let mut b = [0; 64];

    let mut r = BodyReader::new(b"abcdefghijklmno", 16);
    let e = r.read_array::<16>().unwrap_err();
    assert_eq!(e, ReadError::UnexpectedEOF);

    let mut r = BodyReader::new(b"", 1);
    let e = r.read_u8().unwrap_err();
    assert_eq!(e, ReadError::UnexpectedEOF);

    let mut r = BodyReader::new(b"\x00", 2);
    let e = r.read_u16().unwrap_err();
    assert_eq!(e, ReadError::UnexpectedEOF);

    let mut r = BodyReader::new(b"\x00\x00\x00", 4);
    let e = r.read_u32().unwrap_err();
    assert_eq!(e, ReadError::UnexpectedEOF);

    let mut r = BodyReader::new(b"\x00", 2);
    let e = r.read_binary(&mut b).unwrap_err();
    assert_eq!(e, ReadError::UnexpectedEOF);

    let mut r = BodyReader::new(&[0x00, 0x05, 0x01, 0x02], 7);
    let e = r.read_binary(&mut b).unwrap_err();
    assert_eq!(e, ReadError::UnexpectedEOF);

    let mut r = BodyReader::new(b"\x00", 2);
    let e = r.read_string(&mut b).unwrap_err();
    assert_eq!(e, ReadError::UnexpectedEOF);

    let mut r = BodyReader::new(&[0x00, 0x04, b't', b'e'], 6);
    let e = r.read_string(&mut b).unwrap_err();
    assert_eq!(e, ReadError::UnexpectedEOF);
}

#[test]
fn u8_budget_and_end_of_stream_are_told_apart() {
    let mut r = BodyReader::new(b"\x07", 0);
    assert_eq!(
        r.read_u8(),
        Err(ReadError::Read(BodyReadError::InsufficientRemainingLen))
    );
    let mut r = BodyReader::new(b"", 1);
    assert_eq!(r.read_u8(), Err(ReadError::UnexpectedEOF));
}

#[test]
fn failed_read_has_taken_what_it_could_reach() {
    let mut r = BodyReader::new(b"abc", 5);
    assert_eq!(r.read_u32(), Err(ReadError::UnexpectedEOF));
    assert_eq!(r.remaining_len(), 2);
    assert_eq!(r.read_u8(), Err(ReadError::UnexpectedEOF));

    let mut r = BodyReader::new(b"abcdef", 3);
    assert_eq!(
        r.read_u32(),
        Err(ReadError::Read(BodyReadError::InsufficientRemainingLen))
    );
    assert_eq!(r.remaining_len(), 0);
}

#[test]
fn var_byte_int_fifth_byte_is_malformed() {
    let mut r = BodyReader::new(&[0x80, 0x80, 0x80, 0x80, 0x01, 0x09], 6);
    assert_eq!(r.read_var_byte_int(), Err(ReadError::MalformedPacket));
    assert_eq!(r.remaining_len(), 1);
    assert_eq!(r.read_u8(), Ok(0x09));

    let mut r = BodyReader::new(&[0x80, 0x80, 0x80, 0x80, 0x01], 4);
    assert_eq!(
        r.read_var_byte_int(),
        Err(ReadError::Read(BodyReadError::InsufficientRemainingLen))
    );

    let mut r = BodyReader::new(&[0x80, 0x80, 0x80, 0x80], 5);
    assert_eq!(r.read_var_byte_int(), Err(ReadError::UnexpectedEOF));
}

#[test]
fn raw_read_fills_what_is_at_hand() {
    let mut r = BodyReader::new(b"abcdef", 4);
    let mut buf = [0u8; 3];
    assert_eq!(r.read(&mut buf), Ok(3));
    assert_eq!(&buf, b"abc");
    assert_eq!(r.remaining_len(), 1);
    let mut buf = [b'-'; 3];
    assert_eq!(r.read(&mut buf), Ok(1));
    assert_eq!(&buf, b"d--");
    assert_eq!(
        r.read(&mut buf),
        Err(BodyReadError::InsufficientRemainingLen)
    );
    assert_eq!(r.read(&mut []), Ok(0));

    let mut r = BodyReader::new(b"ab", 4);
    let mut buf = [0u8; 3];
    assert_eq!(r.read(&mut buf), Ok(2));
    assert_eq!(r.read(&mut buf), Ok(0));
    assert_eq!(r.remaining_len(), 2);
}

#[test]
fn read_and_store_checks_before_it_takes() {
    let mut store = [0u8; 4];
    let mut r = BodyReader::new(b"abcdefgh", 8);
    assert_eq!(
        r.read_and_store(5, &mut store),
        Err(ReadError::Read(BodyReadError::Buffer(InsufficientSpace)))
    );
    assert_eq!(r.remaining_len(), 8);
    assert_eq!(r.read_and_store(3, &mut store), Ok(()));
    assert_eq!(&store, b"abc\0");
    assert_eq!(r.remaining_len(), 5);
    assert_eq!(
        r.read_and_store(6, &mut store),
        Err(ReadError::Read(BodyReadError::InsufficientRemainingLen))
    );
    assert_eq!(r.remaining_len(), 5);
    assert_eq!(r.read_and_store(0, &mut store), Ok(()));
}

#[test]
fn binary_too_large_for_the_store() {
    let mut store = [0u8; 2];
    let mut r = BodyReader::new(&[0x00, 0x03, 1, 2, 3], 5);
    let e = r.read_binary(&mut store).unwrap_err();
    assert_eq!(e, ReadError::Read(BodyReadError::Buffer(InsufficientSpace)));
    assert_eq!(r.remaining_len(), 3);
}

#[test]
fn string_from_stream_must_be_utf8() {
    let mut store = [0u8; 8];
    let mut r = BodyReader::new(&[0x00, 0x02, 0xC3, 0x28], 4);
    let e = r.read_string(&mut store).unwrap_err();
    assert_eq!(e, ReadError::MalformedPacket);
    assert_eq!(r.remaining_len(), 0);
}

#[test]
fn skip_is_bounded_by_the_remaining_length() {
    let mut r = BodyReader::new(b"abcdefgh", 5);
    assert_eq!(r.skip(6), Err(BodyReadError::InsufficientRemainingLen));
    assert_eq!(r.remaining_len(), 5);
    assert_eq!(r.skip(2), Ok(()));
    assert_eq!(r.remaining_len(), 3);
    assert_eq!(r.read_u8(), Ok(b'c'));
    assert_eq!(r.skip(0), Ok(()));
    assert_eq!(r.skip(2), Ok(()));
    assert_eq!(r.remaining_len(), 0);

    let mut r = BodyReader::new(b"ab", 40);
    assert_eq!(r.skip(20), Err(BodyReadError::UnexpectedEOF));
    assert_eq!(r.remaining_len(), 20);
}

#[test]
fn read_read_insufficient_remaining_len_array() {
    let mut r = BodyReader::new(b"abcdefghijklmno", 15);
    let e = r.read_array::<16>().unwrap_err();
    assert_eq!(e, ReadError::Read(BodyReadError::InsufficientRemainingLen));

    let mut r = BodyReader::new(b"abcdefghijklmnop", 15);
    let e = r.read_array::<16>().unwrap_err();
    assert_eq!(e, ReadError::Read(BodyReadError::InsufficientRemainingLen));
}

#[test]
fn read_read_insufficient_remaining_len_u8() {
    let mut r = BodyReader::new(b"", 0);
    let e = r.read_u8().unwrap_err();
    assert_eq!(e, ReadError::Read(BodyReadError::InsufficientRemainingLen));
}

#[test]
fn read_read_insufficient_remaining_len_u16() {
    let mut r = BodyReader::new(b"\x00", 1);
    let e = r.read_u16().unwrap_err();
    assert_eq!(e, ReadError::Read(BodyReadError::InsufficientRemainingLen));

    let mut r = BodyReader::new(b"\x00\x00", 1);
    let e = r.read_u16().unwrap_err();
    assert_eq!(e, ReadError::Read(BodyReadError::InsufficientRemainingLen));
}

#[test]
fn read_read_insufficient_remaining_len_u32() {
    let mut r = BodyReader::new(b"\x00\x00\x00", 3);
    let e = r.read_u32().unwrap_err();
    assert_eq!(e, ReadError::Read(BodyReadError::InsufficientRemainingLen));

    let mut r = BodyReader::new(b"\x00\x00\x00\x00", 3);
    let e = r.read_u32().unwrap_err();
    assert_eq!(e, ReadError::Read(BodyReadError::InsufficientRemainingLen));
}

#[test]
fn read_read_insufficient_remaining_len_binary() {
    let mut b = [0; 64];
    let s = [0x00, 0x05, 0x01, 0x02, 0x03, 0x04, 0xFF];

    let mut r = BodyReader::new(&s, 1);
    let e = r.read_binary(&mut b).unwrap_err();
    assert_eq!(e, ReadError::Read(BodyReadError::InsufficientRemainingLen));

    let mut r = BodyReader::new(&s, 6);
    let e = r.read_binary(&mut b).unwrap_err();
    assert_eq!(e, ReadError::Read(BodyReadError::InsufficientRemainingLen));

    let mut r = BodyReader::new(&s, 2);
    let e = r.read_binary(&mut b).unwrap_err();
    assert_eq!(e, ReadError::Read(BodyReadError::InsufficientRemainingLen));
}

#[test]
fn read_read_insufficient_remaining_len_string() {
    let mut b = [0; 64];
    let s = [0x00, 0x04, b't', b'e', b's', b't'];

    let mut r = BodyReader::new(&s, 1);
    let e = r.read_string(&mut b).unwrap_err();
    assert_eq!(e, ReadError::Read(BodyReadError::InsufficientRemainingLen));

    let mut r = BodyReader::new(&s, 5);
    let e = r.read_string(&mut b).unwrap_err();
    assert_eq!(e, ReadError::Read(BodyReadError::InsufficientRemainingLen));

    let mut r = BodyReader::new(&s, 2);
    let e = r.read_string(&mut b).unwrap_err();
    assert_eq!(e, ReadError::Read(BodyReadError::InsufficientRemainingLen));
}
