//! USB transport abstraction for the radio driver.
//!
//! The driver core speaks to the device through the [`Transport`] trait:
//! vendor-class, device-recipient control transfers and bulk transfers,
//! all from plain values to plain values. The trait promises nothing, so
//! the driver is verified against every possible outcome of a call; the
//! driver keeps its own ghost log of the operations it issued, described
//! by [`UsbOp`].
//!
//! [`UsbTransport`] is the real backend over the `nusb` USB stack.

use vstd::prelude::*;

verus! {

/// Failure of the underlying USB stack: an I/O error while enumerating
/// or opening, a failed transfer, or a request the backend cannot
/// carry at all (an oversized buffer, or an endpoint of the wrong
/// direction).
#[derive(Debug, Clone, Copy, PartialEq, Eq, Structural)]
pub struct TransportFault;

/// The longest transfer timeout the USB backend can carry:
/// `u32::MAX` milliseconds, in nanoseconds.
pub const MAX_TIMEOUT_NANOS: u64 = 4_294_967_295_000_000;

/// The largest control payload the USB backend can carry: the 16-bit
/// `wLength` field of a setup packet.
pub const MAX_CONTROL_BYTES: usize = 0xFFFF;

/// The largest bulk transfer the USB backend can carry: a buffer
/// length that fits in an `i32`.
pub const MAX_BULK_BYTES: usize = 0x7FFF_FFFF;

/// Description of one USB operation issued by the driver, as recorded
/// in its ghost operation log.
#[verifier::ext_equal]
pub enum UsbOp {
    /// Vendor control transfer, device to host.
    ControlIn { request: u8, value: u16, index: u16, length: u16 },
    /// Vendor control transfer, host to device.
    ControlOut { request: u8, value: u16, index: u16, data: Seq<u8> },
    /// Bulk transfer, device to host.
    BulkIn { endpoint: u8, length: usize },
    /// Bulk transfer, host to device.
    BulkOut { endpoint: u8, data: Seq<u8> },
}

/// A USB backend able to carry the four transfer shapes the driver
/// needs. Implementations promise nothing about the outcome: the driver
/// validates every result itself, so it is verified for any backend.
///
/// All control transfers are vendor-class with the device as recipient.
pub trait Transport {
    /// Control transfer reading up to `length` bytes from the device.
    fn vendor_control_in(
        &mut self,
        request: u8,
        value: u16,
        index: u16,
        length: u16,
        timeout_nanos: u64,
    ) -> Result<Vec<u8>, TransportFault>;

    /// Control transfer sending `data` to the device; returns the
    /// number of bytes the device accepted.
    fn vendor_control_out(
        &mut self,
        request: u8,
        value: u16,
        index: u16,
        data: &[u8],
        timeout_nanos: u64,
    ) -> Result<usize, TransportFault>;

    /// Bulk transfer reading up to `length` bytes from `endpoint`.
    fn bulk_in(
        &mut self,
        endpoint: u8,
        length: usize,
        timeout_nanos: u64,
    ) -> Result<Vec<u8>, TransportFault>;

    /// Bulk transfer sending `data` to `endpoint`; returns the number
    /// of bytes actually sent.
    fn bulk_out(
        &mut self,
        endpoint: u8,
        data: &[u8],
        timeout_nanos: u64,
    ) -> Result<usize, TransportFault>;
}

#[verifier::external_type_specification]
#[verifier::external_body]
pub struct ExDeviceInfo(nusb::DeviceInfo);

#[verifier::external_type_specification]
#[verifier::external_body]
pub struct ExDevice(nusb::Device);

#[verifier::external_type_specification]
#[verifier::external_body]
pub struct ExInterface(nusb::Interface);

/// Relies on nusb::DeviceInfo::vendor_id: the `idVendor` descriptor field.
pub assume_specification[ nusb::DeviceInfo::vendor_id ](info: &nusb::DeviceInfo) -> u16;

/// Relies on nusb::DeviceInfo::product_id: the `idProduct` descriptor field.
pub assume_specification[ nusb::DeviceInfo::product_id ](info: &nusb::DeviceInfo) -> u16;

/// Relies on nusb::DeviceInfo::bus_number: the bus the device is on.
pub assume_specification[ nusb::DeviceInfo::bus_number ](info: &nusb::DeviceInfo) -> u8;

/// Relies on nusb::DeviceInfo::device_address: the address within the bus.
pub assume_specification[ nusb::DeviceInfo::device_address ](info: &nusb::DeviceInfo) -> u8;

/// Relies on nusb::DeviceInfo::device_version: the raw BCD `bcdDevice` field.
pub assume_specification[ nusb::DeviceInfo::device_version ](info: &nusb::DeviceInfo) -> u16;

/// Relies on nusb::list_devices: enumerates the USB devices the OS
/// currently sees. The outcome depends on the machine, so nothing is
/// promised of it.
#[verifier::external_body]
pub(crate) fn usb_list_devices() -> Result<Vec<nusb::DeviceInfo>, TransportFault> {
    match nusb::list_devices() {
        Ok(it) => Ok(it.collect()),
        Err(_) => Err(TransportFault),
    }
}

/// Relies on nusb::DeviceInfo::open: opens the device for I/O.
#[verifier::external_body]
pub(crate) fn usb_open(info: &nusb::DeviceInfo) -> Result<nusb::Device, TransportFault> {
    match info.open() {
        Ok(d) => Ok(d),
        Err(_) => Err(TransportFault),
    }
}

/// Relies on nusb::Device::claim_interface: claims the numbered
/// interface for exclusive use.
#[verifier::external_body]
pub(crate) fn usb_claim_interface(
    device: &nusb::Device,
    interface: u8,
) -> Result<nusb::Interface, TransportFault> {
    match device.claim_interface(interface) {
        Ok(i) => Ok(i),
        Err(_) => Err(TransportFault),
    }
}

/// The real USB backend: an exclusively claimed interface of one open
/// device, driven through `nusb`.
pub struct UsbTransport {
    interface: nusb::Interface,
}

impl UsbTransport {
    /// Wrap a claimed interface.
    pub(crate) fn new(interface: nusb::Interface) -> Self {
        UsbTransport { interface }
    }

    /// Relies on nusb::Interface::control_in_blocking: a vendor-class,
    /// device-recipient IN control transfer, returning the bytes read.
    /// The backend converts the timeout to whole `u32` milliseconds
    /// and aborts on a longer one, so such timeouts are left out.
    #[verifier::external_body]
    fn control_in_raw(
        &mut self,
        request: u8,
        value: u16,
        index: u16,
        length: u16,
        timeout_nanos: u64,
    ) -> Result<Vec<u8>, TransportFault>
        requires
            timeout_nanos <= MAX_TIMEOUT_NANOS,
    {
        let mut buf = vec![0u8; length as usize];
        let control = nusb::transfer::Control {
            control_type: nusb::transfer::ControlType::Vendor,
            recipient: nusb::transfer::Recipient::Device,
            request, value, index,
        };
        let timeout = core::time::Duration::from_nanos(timeout_nanos);
        match self.interface.control_in_blocking(control, &mut buf, timeout) {
            Ok(n) => { buf.truncate(n); Ok(buf) },
            Err(_) => Err(TransportFault),
        }
    }

    /// Relies on nusb::Interface::control_out_blocking: a vendor-class,
    /// device-recipient OUT control transfer, returning the number of
    /// bytes the device accepted. The backend converts the timeout to
    /// whole `u32` milliseconds and the payload length to the 16-bit
    /// `wLength` field, and aborts on values that do not fit, so such
    /// inputs are left out.
    #[verifier::external_body]
    fn control_out_raw(
        &mut self,
        request: u8,
        value: u16,
        index: u16,
        data: &[u8],
        timeout_nanos: u64,
    ) -> Result<usize, TransportFault>
        requires
            timeout_nanos <= MAX_TIMEOUT_NANOS,
            data@.len() <= MAX_CONTROL_BYTES,
    {
        let control = nusb::transfer::Control {
            control_type: nusb::transfer::ControlType::Vendor,
            recipient: nusb::transfer::Recipient::Device,
            request, value, index,
        };
        let timeout = core::time::Duration::from_nanos(timeout_nanos);
        match self.interface.control_out_blocking(control, data, timeout) {
            Ok(n) => Ok(n),
            Err(_) => Err(TransportFault),
        }
    }

    /// Relies on nusb::Interface::bulk_in, driven to completion with
    /// futures_lite::future::block_on: reads up to `length` bytes from
    /// a bulk IN endpoint. The transfer has no timeout of its own. The
    /// backend asserts the endpoint's IN direction bit and aborts on a
    /// buffer length that does not fit an `i32`, so such inputs are
    /// left out.
    #[verifier::external_body]
    fn bulk_in_raw(&mut self, endpoint: u8, length: usize) -> Result<Vec<u8>, TransportFault>
        requires
            length <= MAX_BULK_BYTES,
            endpoint & 0x80 == 0x80,
    {
        let buf = nusb::transfer::RequestBuffer::new(length);
        match futures_lite::future::block_on(self.interface.bulk_in(endpoint, buf)).into_result() {
            Ok(v) => Ok(v),
            Err(_) => Err(TransportFault),
        }
    }

    /// Relies on nusb::Interface::bulk_out, driven to completion with
    /// futures_lite::future::block_on: writes `data` to a bulk OUT
    /// endpoint and reports the number of bytes actually sent. The
    /// backend asserts the endpoint's OUT direction bit and aborts on
    /// a buffer length that does not fit an `i32`, so such inputs are
    /// left out.
    #[verifier::external_body]
    fn bulk_out_raw(&mut self, endpoint: u8, data: &[u8]) -> Result<usize, TransportFault>
        requires
            data@.len() <= MAX_BULK_BYTES,
            endpoint & 0x80 == 0,
    {
        let buf = Vec::from(data);
        match futures_lite::future::block_on(self.interface.bulk_out(endpoint, buf)).into_result() {
            Ok(r) => Ok(r.actual_length()),
            Err(_) => Err(TransportFault),
        }
    }
}

impl Transport for UsbTransport {
    fn vendor_control_in(
        &mut self,
        request: u8,
        value: u16,
        index: u16,
        length: u16,
        timeout_nanos: u64,
    ) -> Result<Vec<u8>, TransportFault> {
        let timeout = if timeout_nanos > MAX_TIMEOUT_NANOS {
            MAX_TIMEOUT_NANOS
        } else {
            timeout_nanos
        };
        self.control_in_raw(request, value, index, length, timeout)
    }

    fn vendor_control_out(
        &mut self,
        request: u8,
        value: u16,
        index: u16,
        data: &[u8],
        timeout_nanos: u64,
    ) -> Result<usize, TransportFault> {
        if data.len() > MAX_CONTROL_BYTES {
            return Err(TransportFault);
        }
        let timeout = if timeout_nanos > MAX_TIMEOUT_NANOS {
            MAX_TIMEOUT_NANOS
        } else {
            timeout_nanos
        };
        self.control_out_raw(request, value, index, data, timeout)
    }

    fn bulk_in(
        &mut self,
        endpoint: u8,
        length: usize,
        _timeout_nanos: u64,
    ) -> Result<Vec<u8>, TransportFault> {
        if length > MAX_BULK_BYTES || endpoint & 0x80 != 0x80 {
            return Err(TransportFault);
        }
        self.bulk_in_raw(endpoint, length)
    }

    fn bulk_out(
        &mut self,
        endpoint: u8,
        data: &[u8],
        _timeout_nanos: u64,
    ) -> Result<usize, TransportFault> {
        if data.len() > MAX_BULK_BYTES || endpoint & 0x80 != 0 {
            return Err(TransportFault);
        }
        self.bulk_out_raw(endpoint, data)
    }
}

} // verus!
