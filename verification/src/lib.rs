//! Host-side driver library for the HackRF One software-defined radio,
//! together with the key=value argument format used to select and
//! configure a device.
//!
//! The heart of the crate is the [`hackrfone`] module: vendor-request
//! encoding, parameter packing, the Idle/Receive/Transmit mode state
//! machine, and the streaming read/write contract, all specified and
//! verified. USB traffic itself goes through the [`transport`] module;
//! [`enumerate`] and the [`impls`] module tie the driver into the
//! generic argument-based device selection.

use vstd::prelude::*;

mod args;
pub mod codec;
pub mod config;
pub mod hackrfone;
pub mod impls;
pub mod kv;
pub mod text;
pub mod transport;

pub use args::Args;
pub use codec::freq_params;
pub use codec::UsbVersion;

use crate::text::ci_eq;
use crate::text::str_ci_eq;

verus! {

/// Library errors.
#[derive(Debug, Clone, PartialEq, Eq)]
pub enum Error {
    /// A device-level operation failed.
    DeviceError,
    /// A value could not be parsed or was malformed.
    ValueError,
    /// The requested item does not exist.
    NotFound,
    /// The corresponding driver is not available in this build.
    FeatureNotEnabled,
    /// The operation is not supported by the device.
    NotSupported,
    /// A numeric value overflowed.
    Overflow,
    /// The operation needs an active stream.
    Inactive,
    /// Any other error, with a description.
    Misc(String),
}

/// Supported hardware drivers.
#[derive(Debug, Clone, Copy, PartialEq, Eq, Structural)]
#[non_exhaustive]
pub enum Driver {
    Aaronia,
    AaroniaHttp,
    HackRf,
    RtlSdr,
    Soapy,
}

/// Direction of a stream: receive or transmit.
#[derive(Debug, Clone, Copy, PartialEq, Eq, Structural)]
pub enum Direction {
    Rx,
    Tx,
}

/// The driver a name denotes, compared without regard to ASCII case.
pub open spec fn spec_parse_driver(s: Seq<char>) -> Option<Driver> {
    if ci_eq(s, "aaronia"@) {
        Some(Driver::Aaronia)
    } else if ci_eq(s, "aaronia_http"@) || ci_eq(s, "aaronia-http"@) || ci_eq(s, "aaroniahttp"@) {
        Some(Driver::AaroniaHttp)
    } else if ci_eq(s, "hackrf"@) || ci_eq(s, "hackrfone"@) {
        Some(Driver::HackRf)
    } else if ci_eq(s, "rtlsdr"@) || ci_eq(s, "rtl-sdr"@) || ci_eq(s, "rtl"@) {
        Some(Driver::RtlSdr)
    } else if ci_eq(s, "soapy"@) || ci_eq(s, "soapysdr"@) {
        Some(Driver::Soapy)
    } else {
        None
    }
}

/// Parse a driver name, ignoring ASCII case; an unknown name is a
/// value error.
pub fn parse_driver(s: &str) -> (r: Result<Driver, Error>)
    ensures
        match r {
            Ok(d) => spec_parse_driver(s@) == Some(d),
            Err(e) => e == Error::ValueError && spec_parse_driver(s@) is None,
        },
{
    if str_ci_eq(s, "aaronia") {
        Ok(Driver::Aaronia)
    } else if str_ci_eq(s, "aaronia_http") || str_ci_eq(s, "aaronia-http") || str_ci_eq(
        s,
        "aaroniahttp",
    ) {
        Ok(Driver::AaroniaHttp)
    } else if str_ci_eq(s, "hackrf") || str_ci_eq(s, "hackrfone") {
        Ok(Driver::HackRf)
    } else if str_ci_eq(s, "rtlsdr") || str_ci_eq(s, "rtl-sdr") || str_ci_eq(s, "rtl") {
        Ok(Driver::RtlSdr)
    } else if str_ci_eq(s, "soapy") || str_ci_eq(s, "soapysdr") {
        Ok(Driver::Soapy)
    } else {
        Err(Error::ValueError)
    }
}

impl core::str::FromStr for Driver {
    type Err = Error;

    fn from_str(s: &str) -> Result<Driver, Error> {
        parse_driver(s)
    }
}

/// Enumerate devices: each element of the result is an argument map
/// that identifies one device and can be handed back to open it.
pub fn enumerate() -> (r: Result<Vec<Args>, Error>)
    ensures
        r matches Ok(v) ==> forall|i: int|
            0 <= i < v@.len() ==> crate::impls::hackrfone::is_probe_entry(#[trigger] v@[i]@),
        r matches Err(e) ==> e == Error::DeviceError,
{
    let args = Args::new();
    enumerate_with_args(&args)
}

/// Enumerate devices matching the given arguments. A `driver` key
/// restricts the search to one driver; an unknown driver name is a
/// value error, and a known driver that this build does not carry
/// reports its feature as not enabled.
pub fn enumerate_with_args(args: &Args) -> (r: Result<Vec<Args>, Error>)
    ensures
        args@.contains_key("driver"@) && spec_parse_driver(args@["driver"@]) is None ==> r == Err::<
            Vec<Args>,
            Error,
        >(Error::ValueError),
        (args@.contains_key("driver"@) && (spec_parse_driver(args@["driver"@]) matches Some(d) && d
            != Driver::HackRf)) ==> r == Err::<Vec<Args>, Error>(Error::FeatureNotEnabled),
        r matches Ok(v) ==> forall|i: int|
            0 <= i < v@.len() ==> crate::impls::hackrfone::is_probe_entry(#[trigger] v@[i]@),
        r matches Err(e) ==> (e == Error::ValueError || e == Error::FeatureNotEnabled || e
            == Error::DeviceError),
        r == Err::<Vec<Args>, Error>(Error::ValueError) ==> args@.contains_key("driver"@)
            && spec_parse_driver(args@["driver"@]) is None,
        r == Err::<Vec<Args>, Error>(Error::FeatureNotEnabled) ==> args@.contains_key("driver"@)
            && spec_parse_driver(args@["driver"@]) is Some,
{
    let driver = match args.get("driver") {
        Ok(s) => {
            match parse_driver(s.as_str()) {
                Ok(d) => Some(d),
                Err(e) => {
                    return Err(e);
                },
            }
        },
        Err(_) => None,
    };
    match driver {
        None => crate::impls::hackrfone::HackRfOne::probe(args),
        Some(Driver::HackRf) => crate::impls::hackrfone::HackRfOne::probe(args),
        Some(_) => Err(Error::FeatureNotEnabled),
    }
}

} // verus!
