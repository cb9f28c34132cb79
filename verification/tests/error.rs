use openinput::error::Error;
use openinput::report::OiReport;

fn text(s: &[u8]) -> [u8; 27] {
    let mut buf = [0u8; 27];
    buf[..s.len()].copy_from_slice(s);
    buf
}

#[test]
fn error_ids() {
    assert_eq!(Error::InvalidValue(0).id(), 0x01);
    assert_eq!(Error::InvalidValue(200).id(), 0x01);
    assert_eq!(Error::UnsupportedFunction.id(), 0x02);
    assert_eq!(Error::Custom([0; 27]).id(), 0xFE);
    assert_eq!(openinput::error::ERROR_FUNCTION_PAGE, 0xFF);
    assert_eq!(openinput::error::CUSTOM_ERROR_LEN, 27);
}

#[test]
fn invalid_value_frame() {
    let bytes = Error::InvalidValue(7).serialize_error(0x10, 0x22);
    assert_eq!(bytes.as_slice(), &[0x20, 0xFF, 0x01, 0x10, 0x22, 7, 0, 0]);
}

#[test]
fn unsupported_function_frame() {
    let bytes = Error::UnsupportedFunction.serialize_error(0x42, 0x99);
    assert_eq!(bytes.as_slice(), &[0x20, 0xFF, 0x02, 0x42, 0x99, 0, 0, 0]);
}

#[test]
fn error_frames_decode() {
    let bytes = Error::InvalidValue(3).serialize_error(1, 2);
    let report = OiReport::read(bytes.as_slice()).unwrap();
    assert_eq!(report.id(), 0x20);
    assert_eq!(report.function_page(), 0xFF);
    assert_eq!(report.function_id(), 0x01);
    assert_eq!(report.data(), &[1, 2, 3, 0, 0]);
}

#[test]
fn custom_empty_text_is_short() {
    let bytes = Error::Custom([0; 27]).serialize_error(5, 6);
    assert_eq!(bytes.as_slice(), &[0x20, 0xFF, 0xFE, 5, 6, 0, 0, 0]);
}

#[test]
fn custom_zero_at_offset_two_is_short() {
    let bytes = Error::Custom(text(b"no")).serialize_error(5, 6);
    assert_eq!(bytes.as_slice(), &[0x20, 0xFF, 0xFE, 5, 6, b'n', b'o', 0]);
}

#[test]
fn custom_zero_at_offset_three_is_short() {
    let bytes = Error::Custom(text(b"abc")).serialize_error(0x11, 0x12);
    assert_eq!(bytes.as_slice(), &[0x20, 0xFF, 0xFE, 0x11, 0x12, b'a', b'b', b'c']);
}

#[test]
fn custom_zero_at_offset_four_is_long() {
    let bytes = Error::Custom(text(b"abcd")).serialize_error(0x11, 0x12);
    let mut expected = [0u8; 32];
    expected[..9].copy_from_slice(&[0x21, 0xFF, 0xFE, 0x11, 0x12, b'a', b'b', b'c', b'd']);
    assert_eq!(bytes.as_slice(), &expected);
}

#[test]
fn custom_full_text_has_no_terminator() {
    let msg: [u8; 27] = *b"abcdefghijklmnopqrstuvwxyz!";
    let bytes = Error::Custom(msg).serialize_error(1, 2);
    assert_eq!(bytes.len(), 32);
    assert_eq!(&bytes[..5], &[0x21, 0xFF, 0xFE, 1, 2]);
    assert_eq!(&bytes[5..], &msg);
}

#[test]
fn custom_text_of_26_bytes() {
    let mut msg = [b'x'; 27];
    msg[26] = 0;
    let bytes = Error::Custom(msg).serialize_error(1, 2);
    assert_eq!(bytes.len(), 32);
    assert_eq!(&bytes[5..31], &[b'x'; 26]);
    assert_eq!(bytes[31], 0);
}

#[test]
fn custom_text_ends_at_the_first_zero() {
    let mut msg = text(b"ab");
    msg[5] = b'z';
    msg[26] = b'y';
    let bytes = Error::Custom(msg).serialize_error(9, 8);
    assert_eq!(bytes.as_slice(), &[0x20, 0xFF, 0xFE, 9, 8, b'a', b'b', 0]);

    let mut msg = text(b"hello");
    msg[10] = b'z';
    let bytes = Error::Custom(msg).serialize_error(9, 8);
    let mut expected = [0u8; 32];
    expected[..10].copy_from_slice(&[0x21, 0xFF, 0xFE, 9, 8, b'h', b'e', b'l', b'l', b'o']);
    assert_eq!(bytes.as_slice(), &expected);
}

#[test]
fn every_text_length_picks_its_size() {
    for n in 0..=27usize {
        let mut msg = [0u8; 27];
        for b in msg.iter_mut().take(n) {
            *b = b'A';
        }
        let bytes = Error::Custom(msg).serialize_error(1, 2);
        if n <= 3 {
            assert_eq!(bytes.len(), 8, "text of {} bytes", n);
            assert_eq!(bytes[0], 0x20);
        } else {
            assert_eq!(bytes.len(), 32, "text of {} bytes", n);
            assert_eq!(bytes[0], 0x21);
        }
        assert_eq!(&bytes[1..5], &[0xFF, 0xFE, 1, 2]);
        assert!(bytes[5..5 + n].iter().all(|&b| b == b'A'));
        assert!(bytes[5 + n..].iter().all(|&b| b == 0));
    }
}
