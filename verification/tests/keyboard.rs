use openinput::error::OpenInputReportError;
use openinput::keyboard::{
    KeyboardInputReport, KeyboardReportId, OiKeyboardInputReport, OiKeyboardOutputReport,
};
use openinput::report::OiReport;
use usb_device::UsbError;
use usbd_hid::hid_class::ReportType;

#[test]
fn keyboard_report_id_from_byte() {
    assert_eq!(KeyboardReportId::try_from(0x02), Ok(KeyboardReportId::Keyboard));
    assert_eq!(KeyboardReportId::try_from(0x20), Ok(KeyboardReportId::OpenInputShort));
    assert_eq!(KeyboardReportId::try_from(0x21), Ok(KeyboardReportId::OpenInputLong));
    assert_eq!(KeyboardReportId::try_from(0x00), Err(()));
    assert_eq!(KeyboardReportId::try_from(0x01), Err(()));
    assert_eq!(KeyboardReportId::try_from(0x22), Err(()));
    assert_eq!(KeyboardReportId::try_from(0xFF), Err(()));
}

#[test]
fn input_and_reserved_reports_are_not_taken() {
    let data = [0x20u8, 0, 0, 0, 0, 0, 0, 0];
    for t in [ReportType::Input, ReportType::Reserved] {
        for id in [0x02u8, 0x20, 0x21, 0x33] {
            assert_eq!(
                OiKeyboardOutputReport::from_raw(t, id, &data),
                Err(OpenInputReportError::UsbError(UsbError::InvalidState))
            );
        }
    }
}

#[test]
fn unknown_report_ids_fail_to_parse() {
    for id in [0x00u8, 0x01, 0x03, 0x1F, 0x22, 0xFF] {
        for t in [ReportType::Output, ReportType::Feature] {
            assert_eq!(
                OiKeyboardOutputReport::from_raw(t, id, &[0; 8]),
                Err(OpenInputReportError::UsbError(UsbError::ParseError))
            );
        }
    }
}

#[test]
fn keyboard_leds() {
    assert_eq!(
        OiKeyboardOutputReport::from_raw(ReportType::Output, 0x02, &[0b101]),
        Ok(OiKeyboardOutputReport::Keyboard(0b101))
    );
    assert_eq!(
        OiKeyboardOutputReport::from_raw(ReportType::Feature, 0x02, &[0xFF]),
        Ok(OiKeyboardOutputReport::Keyboard(0xFF))
    );
    assert_eq!(
        OiKeyboardOutputReport::from_raw(ReportType::Output, 0x02, &[]),
        Err(OpenInputReportError::FuckyBuffer)
    );
    assert_eq!(
        OiKeyboardOutputReport::from_raw(ReportType::Output, 0x02, &[1, 2]),
        Err(OpenInputReportError::FuckyBuffer)
    );
}

#[test]
fn short_openinput_report() {
    let data = [0x20u8, 0x00, 0x03, 9, 8, 7, 6, 5];
    let r = OiKeyboardOutputReport::from_raw(ReportType::Output, 0x20, &data).unwrap();
    match r {
        OiKeyboardOutputReport::OpenInput(report) => {
            assert_eq!(report, OiReport::read(&data).unwrap());
            assert_eq!(report.function_page(), 0x00);
            assert_eq!(report.function_id(), 0x03);
            assert_eq!(report.data(), &[9, 8, 7, 6, 5]);
        }
        other => panic!("{:?}", other),
    }
    for len in [0usize, 1, 7] {
        assert_eq!(
            OiKeyboardOutputReport::from_raw(ReportType::Output, 0x20, &data[..len]),
            Err(OpenInputReportError::FuckyBuffer)
        );
    }
    assert_eq!(
        OiKeyboardOutputReport::from_raw(ReportType::Output, 0x20, &[0; 32]),
        Err(OpenInputReportError::FuckyBuffer)
    );
}

#[test]
fn long_openinput_report() {
    let mut data = [0u8; 32];
    for (i, b) in data.iter_mut().enumerate() {
        *b = i as u8;
    }
    let r = OiKeyboardOutputReport::from_raw(ReportType::Feature, 0x21, &data).unwrap();
    match r {
        OiKeyboardOutputReport::OpenInput(report) => {
            assert_eq!(report.function_page(), 1);
            assert_eq!(report.function_id(), 2);
            assert_eq!(report.data(), &data[3..]);
        }
        other => panic!("{:?}", other),
    }
    assert_eq!(
        OiKeyboardOutputReport::from_raw(ReportType::Feature, 0x21, &data[..8]),
        Err(OpenInputReportError::FuckyBuffer)
    );
    assert_eq!(
        OiKeyboardOutputReport::from_raw(ReportType::Feature, 0x21, &data[..31]),
        Err(OpenInputReportError::FuckyBuffer)
    );
}

#[test]
fn usb_errors_are_wrapped() {
    assert_eq!(
        OpenInputReportError::from(UsbError::WouldBlock),
        OpenInputReportError::UsbError(UsbError::WouldBlock)
    );
    let e: OpenInputReportError = UsbError::BufferOverflow.into();
    assert_eq!(e, OpenInputReportError::UsbError(UsbError::BufferOverflow));
    assert_ne!(e, OpenInputReportError::InternalError);
}

#[test]
fn keyboard_input_report_default() {
    let r = KeyboardInputReport::default();
    assert_eq!(r.modifier, 0);
    assert_eq!(r.reserved, 0);
    assert_eq!(r.keycodes, [0; 6]);
    let payload = [0u8; 5];
    let a = OiKeyboardInputReport::Keyboard(r);
    let b = OiKeyboardInputReport::OpenInput(OiReport::new_short(0, 0, &payload));
    assert_ne!(a, b);
    assert_eq!(a, OiKeyboardInputReport::Keyboard(KeyboardInputReport::default()));
}
