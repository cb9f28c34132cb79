//! The reports of a keyboard that speaks OpenInput beside its own report.
use vstd::prelude::*;
use usb_device::UsbError;
use usbd_hid::hid_class::ReportType;
use crate::error::OpenInputReportError;
use crate::report::{decode, FrameView, OiReport};

verus! {

/// The report ids of the keyboard's interface.
#[derive(Debug, Clone, Copy, PartialEq, Eq, Structural)]
pub enum KeyboardReportId {
    OpenInputShort,
    OpenInputLong,
    Keyboard,
}

impl TryFrom<u8> for KeyboardReportId {
    type Error = ();

    fn try_from(value: u8) -> (r: Result<Self, ()>) {
        match value {
            0x02 => Ok(KeyboardReportId::Keyboard),
            0x20 => Ok(KeyboardReportId::OpenInputShort),
            0x21 => Ok(KeyboardReportId::OpenInputLong),
            _ => Err(()),
        }
    }
}

impl vstd::std_specs::convert::TryFromSpecImpl<u8> for KeyboardReportId {
    open spec fn obeys_try_from_spec() -> bool {
        true
    }

    open spec fn try_from_spec(value: u8) -> Result<Self, ()> {
        if value == 0x02 {
            Ok(KeyboardReportId::Keyboard)
        } else if value == 0x20 {
            Ok(KeyboardReportId::OpenInputShort)
        } else if value == 0x21 {
            Ok(KeyboardReportId::OpenInputLong)
        } else {
            Err(())
        }
    }
}

/// What the host sends to the keyboard.
#[derive(Debug, Clone, Copy, PartialEq, Eq)]
pub enum OiKeyboardOutputReport<'a> {
    /// Keyboard LEDs bitfield
    Keyboard(u8),
    /// OpenInput short or long report
    OpenInput(OiReport<'a>),
}

/// What the host sends to the keyboard, as plain values.
pub enum OutputReportView {
    Keyboard(u8),
    OpenInput(FrameView),
}

impl<'a> View for OiKeyboardOutputReport<'a> {
    type V = OutputReportView;

    open spec fn view(&self) -> OutputReportView {
        match self {
            OiKeyboardOutputReport::Keyboard(leds) => OutputReportView::Keyboard(*leds),
            OiKeyboardOutputReport::OpenInput(report) => OutputReportView::OpenInput(report@),
        }
    }
}

/// The keyboard's own input report.
#[derive(Debug, Clone, Copy, Default, PartialEq, Eq)]
pub struct KeyboardInputReport {
    pub modifier: u8,
    pub reserved: u8,
    pub keycodes: [u8; 6],
}

/// What the keyboard sends to the host.
#[derive(Debug, Clone, Copy, PartialEq, Eq)]
pub enum OiKeyboardInputReport<'a> {
    /// Keyboard report
    Keyboard(KeyboardInputReport),
    /// OpenInput short or long report
    OpenInput(OiReport<'a>),
}

/// What a report of the given type and id with the bytes `data` means to the
/// keyboard. Only output and feature reports are taken. The keyboard's own
/// report is one byte of LEDs; an OpenInput report is 8 bytes under the short
/// report id and 32 under the long one.
pub open spec fn spec_from_raw(report_type: ReportType, report_id: u8, data: Seq<u8>) -> Result<
    OutputReportView,
    OpenInputReportError,
> {
    if report_type == ReportType::Input || report_type == ReportType::Reserved {
        Err(OpenInputReportError::UsbError(UsbError::InvalidState))
    } else if report_id == 0x02 {
        if data.len() == 1 {
            Ok(OutputReportView::Keyboard(data[0]))
        } else {
            Err(OpenInputReportError::FuckyBuffer)
        }
    } else if report_id == 0x20 {
        if data.len() == 8 {
            Ok(OutputReportView::OpenInput(decode(data).unwrap()))
        } else {
            Err(OpenInputReportError::FuckyBuffer)
        }
    } else if report_id == 0x21 {
        if data.len() == 32 {
            Ok(OutputReportView::OpenInput(decode(data).unwrap()))
        } else {
            Err(OpenInputReportError::FuckyBuffer)
        }
    } else {
        Err(OpenInputReportError::UsbError(UsbError::ParseError))
    }
}

impl<'a> OiKeyboardOutputReport<'a> {
    /// Makes sense of a report that was pulled from the host.
    pub fn from_raw(report_type: ReportType, report_id: u8, data: &'a [u8]) -> (r: Result<
        Self,
        OpenInputReportError,
    >)
        ensures
            match r {
                Ok(report) => spec_from_raw(report_type, report_id, data@) == Ok::<
                    OutputReportView,
                    OpenInputReportError,
                >(report@),
                Err(e) => spec_from_raw(report_type, report_id, data@) == Err::<
                    OutputReportView,
                    OpenInputReportError,
                >(e),
            },
    {
        match report_type {
            ReportType::Output | ReportType::Feature => (),
            // pulling a report gives output or feature reports only
            ReportType::Input | ReportType::Reserved => {
                return Err(OpenInputReportError::from(UsbError::InvalidState));
            },
        }
        let id = match KeyboardReportId::try_from(report_id) {
            Ok(id) => id,
            Err(_) => return Err(OpenInputReportError::from(UsbError::ParseError)),
        };
        match id {
            KeyboardReportId::Keyboard => {
                if data.len() == 1 {
                    Ok(OiKeyboardOutputReport::Keyboard(data[0]))
                } else {
                    Err(OpenInputReportError::FuckyBuffer)
                }
            },
            KeyboardReportId::OpenInputShort => {
                if data.len() == 8 {
                    match OiReport::read(data) {
                        Ok(report) => Ok(OiKeyboardOutputReport::OpenInput(report)),
                        Err(_) => Err(OpenInputReportError::from(UsbError::ParseError)),
                    }
                } else {
                    Err(OpenInputReportError::FuckyBuffer)
                }
            },
            KeyboardReportId::OpenInputLong => {
                if data.len() == 32 {
                    match OiReport::read(data) {
                        Ok(report) => Ok(OiKeyboardOutputReport::OpenInput(report)),
                        Err(_) => Err(OpenInputReportError::from(UsbError::ParseError)),
                    }
                } else {
                    Err(OpenInputReportError::FuckyBuffer)
                }
            },
        }
    }
}

} // verus!
