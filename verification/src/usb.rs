//! The plain enums of the USB stack that this crate's types and functions name.
use vstd::prelude::*;

verus! {

/// `usb_device::UsbError`, an enum without fields; Verus reads its variants.
#[verifier::external_type_specification]
pub struct ExUsbError(usb_device::UsbError);

/// `usbd_hid::hid_class::ReportType`, an enum without fields; Verus reads its
/// variants.
#[verifier::external_type_specification]
pub struct ExReportType(usbd_hid::hid_class::ReportType);

} // verus!
