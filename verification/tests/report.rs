use openinput::report::{OiReport, OiReportId};

#[test]
fn short_report_round_trip() {
    let payload = [1u8, 2, 3, 4, 5];
    let report = OiReport::new_short(0x00, 0x01, &payload);
    let bytes = report.to_bytes();
    assert_eq!(bytes.as_slice(), &[0x20, 0x00, 0x01, 1, 2, 3, 4, 5]);
    let back = OiReport::read(bytes.as_slice()).unwrap();
    assert_eq!(back, report);
    assert_eq!(back.function_page(), 0x00);
    assert_eq!(back.function_id(), 0x01);
    assert_eq!(back.data(), &payload);
}

#[test]
fn long_report_round_trip() {
    let mut payload = [0u8; 29];
    for (i, b) in payload.iter_mut().enumerate() {
        *b = 100 + i as u8;
    }
    let report = OiReport::new_long(0x12, 0x34, &payload);
    let bytes = report.to_bytes();
    assert_eq!(bytes.len(), 32);
    assert_eq!(&bytes[..3], &[0x21, 0x12, 0x34]);
    assert_eq!(&bytes[3..], &payload);
    let back = OiReport::read(bytes.as_slice()).unwrap();
    assert_eq!(back, report);
    assert_eq!(back.id(), 0x21);
    assert_eq!(back.function_page(), 0x12);
    assert_eq!(back.function_id(), 0x34);
    assert_eq!(back.data(), &payload);
}

#[test]
fn short_report_layout() {
    let payload = [0xAAu8, 0xBB, 0xCC, 0xDD, 0xEE];
    let report = OiReport::new_short(0x7F, 0x80, &payload);
    assert_eq!(report.id(), 0x20);
    assert_eq!(report.function_page(), 0x7F);
    assert_eq!(report.function_id(), 0x80);
    assert_eq!(report.data(), &payload);
    assert_eq!(report.to_bytes().len(), 8);
}

#[test]
fn long_report_layout() {
    let payload = [7u8; 29];
    let report = OiReport::new_long(1, 2, &payload);
    assert_eq!(report.id(), 0x21);
    assert_eq!(report.data().len(), 29);
    assert_eq!(report.to_bytes().len(), 32);
}

#[test]
fn read_takes_eight_bytes() {
    let bytes = [0x20u8, 9, 8, 7, 6, 5, 4, 3];
    let report = OiReport::read(&bytes).unwrap();
    assert_eq!(report.id(), 0x20);
    assert_eq!(report.function_page(), 9);
    assert_eq!(report.function_id(), 8);
    assert_eq!(report.data(), &[7, 6, 5, 4, 3]);
}

#[test]
fn read_takes_thirty_two_bytes() {
    let mut bytes = [0u8; 32];
    for (i, b) in bytes.iter_mut().enumerate() {
        *b = i as u8;
    }
    bytes[0] = 0x21;
    let report = OiReport::read(&bytes).unwrap();
    assert_eq!(report.id(), 0x21);
    assert_eq!(report.function_page(), 1);
    assert_eq!(report.function_id(), 2);
    assert_eq!(report.data(), &bytes[3..]);
}

#[test]
fn read_refuses_other_lengths() {
    let bytes = [0u8; 40];
    for len in 0..=40usize {
        let r = OiReport::read(&bytes[..len]);
        if len == 8 || len == 32 {
            assert!(r.is_ok(), "length {}", len);
        } else {
            assert_eq!(r, Err(()), "length {}", len);
        }
    }
}

#[test]
fn read_keeps_the_first_byte() {
    let bytes = [0x55u8, 1, 2, 3, 4, 5, 6, 7];
    let report = OiReport::read(&bytes).unwrap();
    assert_eq!(report.id(), 0x55);
    assert_eq!(report.to_bytes().as_slice(), &bytes);
}

#[test]
fn read_then_encode_gives_the_bytes_back() {
    let mut bytes = [0u8; 32];
    for (i, b) in bytes.iter_mut().enumerate() {
        *b = 255 - i as u8;
    }
    let report = OiReport::read(&bytes).unwrap();
    assert_eq!(report.to_bytes().as_slice(), &bytes);
}

#[test]
fn buffer_from_report() {
    let payload = [1u8, 1, 2, 3, 5];
    let report = OiReport::new_short(3, 4, &payload);
    let bytes: heapless::Vec<u8, 32> = report.into();
    assert_eq!(bytes.as_slice(), &[0x20, 3, 4, 1, 1, 2, 3, 5]);
}

#[test]
fn report_id_bytes() {
    assert_eq!(OiReportId::Short.id(), 0x20);
    assert_eq!(OiReportId::Long.id(), 0x21);
    assert_eq!(OiReportId::Keyboard.id(), 0x02);
    assert_eq!(openinput::OPENINPUT_SHORT_REPORT_ID, 0x20);
    assert_eq!(openinput::OPENINPUT_LONG_REPORT_ID, 0x21);
}

#[test]
fn report_id_from_byte() {
    assert_eq!(OiReportId::try_from(0x20), Ok(OiReportId::Short));
    assert_eq!(OiReportId::try_from(0x21), Ok(OiReportId::Long));
    assert_eq!(OiReportId::try_from(0x02), Err(()));
    assert_eq!(OiReportId::try_from(0x00), Err(()));
    assert_eq!(OiReportId::try_from(0x22), Err(()));
    assert_eq!(OiReportId::try_from(0xFF), Err(()));
}
