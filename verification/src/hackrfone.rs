//! Driver core for the HackRF One software-defined radio.
//!
//! The driver encodes configuration values into vendor control
//! requests, gates streaming behind the Idle/Receive/Transmit mode
//! state machine, and moves sample bytes over the bulk endpoints.
//! Every operation it issues is recorded in a ghost log of [`UsbOp`]
//! values, so the contracts state exactly which requests each call
//! sends, in which order, and that rejected calls send none.

use vstd::prelude::*;

use crate::codec::filter_bandwidth;
use crate::codec::freq_params;
use crate::codec::rate_params;
use crate::codec::spec_filter_bandwidth;
use crate::codec::spec_freq_params;
use crate::codec::spec_rate_params;
use crate::codec::UsbVersion;
use crate::text::utf8_lossy_string;
use crate::transport::Transport;
use crate::transport::TransportFault;
use crate::transport::UsbOp;
use crate::transport::UsbTransport;
use crate::transport::MAX_BULK_BYTES;
use crate::transport::MAX_TIMEOUT_NANOS;

verus! {

/// HackRF USB vendor ID.
pub const HACKRF_USB_VID: u16 = 0x1D50;

/// HackRF One USB product ID.
pub const HACKRF_ONE_USB_PID: u16 = 0x6089;

/// Transfers block for at most this long by default: 500 ms.
pub const DEFAULT_TIMEOUT_NANOS: u64 = 500_000_000;

/// Vendor request numbers understood by the device firmware.
#[derive(Clone, Copy, Debug, PartialEq, Eq, Structural)]
pub enum Request {
    SetTransceiverMode,
    SampleRateSet,
    BasebandFilterBandwidthSet,
    BoardIdRead,
    VersionStringRead,
    SetFreq,
    AmpEnable,
    SetLnaGain,
    SetVgaGain,
    SetTxvgaGain,
    AntennaEnable,
    Reset,
}

impl Request {
    /// The `bRequest` byte of this vendor request.
    pub open spec fn spec_code(self) -> u8 {
        match self {
            Request::SetTransceiverMode => 1,
            Request::SampleRateSet => 6,
            Request::BasebandFilterBandwidthSet => 7,
            Request::BoardIdRead => 14,
            Request::VersionStringRead => 15,
            Request::SetFreq => 16,
            Request::AmpEnable => 17,
            Request::SetLnaGain => 19,
            Request::SetVgaGain => 20,
            Request::SetTxvgaGain => 21,
            Request::AntennaEnable => 23,
            Request::Reset => 30,
        }
    }

    /// The `bRequest` byte of this vendor request.
    pub fn code(self) -> (r: u8)
        ensures
            r == self.spec_code(),
    {
        match self {
            Request::SetTransceiverMode => 1,
            Request::SampleRateSet => 6,
            Request::BasebandFilterBandwidthSet => 7,
            Request::BoardIdRead => 14,
            Request::VersionStringRead => 15,
            Request::SetFreq => 16,
            Request::AmpEnable => 17,
            Request::SetLnaGain => 19,
            Request::SetVgaGain => 20,
            Request::SetTxvgaGain => 21,
            Request::AntennaEnable => 23,
            Request::Reset => 30,
        }
    }
}

/// Transceiver mode values carried by `SetTransceiverMode`.
#[derive(Clone, Copy, Debug, PartialEq, Eq, Structural)]
pub enum TransceiverMode {
    Off,
    Receive,
    Transmit,
}

impl TransceiverMode {
    /// The 16-bit wire value of this transceiver mode.
    pub open spec fn spec_value(self) -> u16 {
        match self {
            TransceiverMode::Off => 0,
            TransceiverMode::Receive => 1,
            TransceiverMode::Transmit => 2,
        }
    }

    /// The 16-bit wire value of this transceiver mode.
    pub fn value(self) -> (r: u16)
        ensures
            r == self.spec_value(),
    {
        match self {
            TransceiverMode::Off => 0,
            TransceiverMode::Receive => 1,
            TransceiverMode::Transmit => 2,
        }
    }
}

/// Operating mode of the radio: at most one of receive and transmit is
/// active at any time.
#[derive(Clone, Copy, Debug, PartialEq, Eq, Structural)]
pub enum Mode {
    Idle,
    Receive,
    Transmit,
}

/// Configurable parameters of the radio, applied as a whole by
/// `start_rx`/`start_tx`.
#[derive(Clone, Copy, Debug, PartialEq, Eq, Structural)]
pub struct Config {
    /// Baseband (VGA) gain, 0-62 dB in 2 dB increments (rx only).
    pub vga_db: u16,
    /// Transmit VGA gain, 0-47 dB in 1 dB increments (tx only).
    pub txvga_db: u16,
    /// Low-noise amplifier gain, 0-40 dB in 8 dB increments (rx only).
    pub lna_db: u16,
    /// RF amplifier on/off.
    pub power_port_enable: bool,
    /// Antenna power port control.
    pub antenna_enable: bool,
    /// Center frequency in Hz.
    pub frequency_hz: u64,
    /// Sample rate in Hz.
    pub sample_rate_hz: u32,
    /// Sample rate divisor.
    pub sample_rate_div: u32,
}

/// The default transmit parameters: 40 dB TX-VGA gain at 908 MHz and
/// 2.5 MHz sample rate, everything else off or zero.
pub open spec fn spec_tx_default() -> Config {
    Config {
        vga_db: 0u16,
        lna_db: 0u16,
        txvga_db: 40u16,
        power_port_enable: false,
        antenna_enable: false,
        frequency_hz: 908_000_000u64,
        sample_rate_hz: 2_500_000u32,
        sample_rate_div: 1u32,
    }
}

/// The default receive parameters: 24 dB baseband gain at 908 MHz and
/// 2.5 MHz sample rate, everything else off or zero.
pub open spec fn spec_rx_default() -> Config {
    Config {
        vga_db: 24u16,
        lna_db: 0u16,
        txvga_db: 0u16,
        power_port_enable: false,
        antenna_enable: false,
        frequency_hz: 908_000_000u64,
        sample_rate_hz: 2_500_000u32,
        sample_rate_div: 1u32,
    }
}

impl Config {
    /// Default parameters for transmitting.
    pub fn tx_default() -> (r: Self)
        ensures
            r == spec_tx_default(),
    {
        Config {
            vga_db: 0,
            lna_db: 0,
            txvga_db: 40,
            power_port_enable: false,
            antenna_enable: false,
            frequency_hz: 908_000_000,
            sample_rate_hz: 2_500_000,
            sample_rate_div: 1,
        }
    }

    /// Default parameters for receiving.
    pub fn rx_default() -> (r: Self)
        ensures
            r == spec_rx_default(),
    {
        Config {
            vga_db: 24,
            lna_db: 0,
            txvga_db: 0,
            power_port_enable: false,
            antenna_enable: false,
            frequency_hz: 908_000_000,
            sample_rate_hz: 2_500_000,
            sample_rate_div: 1,
        }
    }

    /// All gain fields within the ranges the hardware documents.
    pub open spec fn spec_valid(self) -> bool {
        &&& self.lna_db <= 40
        &&& self.vga_db <= 62
        &&& self.vga_db % 2 == 0
        &&& self.txvga_db <= 47
    }
}

/// Driver errors.
#[derive(Debug)]
pub enum Error {
    /// The underlying USB stack failed: an I/O error, a failed
    /// transfer, or a device acknowledgement that signals failure.
    Transport,
    /// A transfer moved a different number of bytes than requested.
    TransferTruncated { actual: usize, expected: usize },
    /// The operation needs newer device firmware than is installed.
    NoApi { device: UsbVersion, min: UsbVersion },
    /// A caller-supplied parameter is outside the documented range.
    Argument(&'static str),
    /// The operation is not legal in the radio's current mode.
    WrongMode { required: Mode, actual: Mode },
    /// No matching device was found.
    NotFound,
}

/// Decide an OUT control transfer's outcome from the transport's
/// answer: success exactly when the device accepted all `expected`
/// bytes; a different count is a truncation carrying both values; a
/// transport failure is reported as such, never retried.
pub fn control_out_outcome(res: Result<usize, TransportFault>, expected: usize) -> (r: Result<
    (),
    Error,
>)
    ensures
        r == (match res {
            Ok(n) => if n == expected {
                Ok::<(), Error>(())
            } else {
                Err::<(), Error>(Error::TransferTruncated { actual: n, expected })
            },
            Err(_) => Err::<(), Error>(Error::Transport),
        }),
{
    match res {
        Ok(n) => {
            if n == expected {
                Ok(())
            } else {
                Err(Error::TransferTruncated { actual: n, expected })
            }
        },
        Err(_) => Err(Error::Transport),
    }
}

/// Decide an IN control transfer's outcome from the transport's
/// answer: the received bytes, exactly when there are `expected` of
/// them; a different count is a truncation carrying both values,
/// never silently padded or cut; a transport failure is reported as
/// such.
pub fn control_in_outcome(res: Result<Vec<u8>, TransportFault>, expected: usize) -> (r: Result<
    Vec<u8>,
    Error,
>)
    ensures
        res matches Ok(b) ==> ((b@.len() == expected ==> r == Ok::<Vec<u8>, Error>(b)) && (b@.len()
            != expected ==> (r matches Err(e) && e matches Error::TransferTruncated {
            actual,
            expected: ex,
        } && actual == b@.len() && ex == expected))),
        res is Err ==> r == Err::<Vec<u8>, Error>(Error::Transport),
{
    match res {
        Ok(b) => {
            if b.len() == expected {
                Ok(b)
            } else {
                Err(Error::TransferTruncated { actual: b.len(), expected })
            }
        },
        Err(_) => Err(Error::Transport),
    }
}

/// Decide a gain setter's outcome from the device's one-byte
/// acknowledgement: non-zero means success — the only meaning the
/// firmware documents for this byte — and zero is reported as a
/// transport failure.
pub fn gain_ack_outcome(ack: u8) -> (r: Result<(), Error>)
    ensures
        r == (if ack != 0 {
            Ok::<(), Error>(())
        } else {
            Err::<(), Error>(Error::Transport)
        }),
{
    if ack != 0 {
        Ok(())
    } else {
        Err(Error::Transport)
    }
}

/// Deliver the bytes of one bulk IN answer into the caller's buffer:
/// as many as both hold, leaving the rest of the buffer unchanged,
/// and report how many were delivered.
pub fn deliver_bulk_in(samples: &mut Vec<u8>, received: &Vec<u8>) -> (n: usize)
    ensures
        n == (if received@.len() < old(samples)@.len() {
            received@.len()
        } else {
            old(samples)@.len()
        }),
        final(samples)@.len() == old(samples)@.len(),
        final(samples)@ == received@.take(n as int) + old(samples)@.skip(n as int),
{
    let n: usize = if received.len() < samples.len() {
        received.len()
    } else {
        samples.len()
    };
    let mut i: usize = 0;
    while i < n
        invariant
            i <= n,
            n <= received@.len(),
            n <= samples@.len(),
            samples@.len() == old(samples)@.len(),
            forall|j: int| 0 <= j < i ==> samples@[j] == received@[j],
            forall|j: int| i <= j < samples@.len() ==> samples@[j] == old(samples)@[j],
        decreases n - i,
    {
        samples.set(i, received[i]);
        i += 1;
    }
    proof {
        assert(samples@ =~= received@.take(n as int) + old(samples)@.skip(n as int));
    }
    n
}

/// Decide a bulk OUT call's count from the transport's answer: the
/// reported count, clamped to the number of bytes that were handed
/// over; a transport failure is reported as such.
pub fn bulk_out_count(res: Result<usize, TransportFault>, len: usize) -> (r: Result<usize, Error>)
    ensures
        r == (match res {
            Ok(n) => Ok::<usize, Error>(
                if n > len {
                    len
                } else {
                    n
                },
            ),
            Err(_) => Err::<usize, Error>(Error::Transport),
        }),
{
    match res {
        Ok(n) => {
            if n > len {
                Ok(len)
            } else {
                Ok(n)
            }
        },
        Err(_) => Err(Error::Transport),
    }
}

/// The control request a gain, frequency or rate setter issues, as it
/// appears in the operation log.
pub open spec fn lna_op(gain: u16) -> UsbOp {
    UsbOp::ControlIn { request: 19, value: 0, index: gain & !0x07u16, length: 1 }
}

/// The control request `set_vga_gain` issues.
pub open spec fn vga_op(gain: u16) -> UsbOp {
    UsbOp::ControlIn { request: 20, value: 0, index: gain & !0x01u16, length: 1 }
}

/// The control request `set_txvga_gain` issues.
pub open spec fn txvga_op(gain: u16) -> UsbOp {
    UsbOp::ControlIn { request: 21, value: 0, index: gain, length: 1 }
}

/// The control request `set_freq` issues.
pub open spec fn freq_op(hz: u64) -> UsbOp {
    UsbOp::ControlOut { request: 16, value: 0, index: 0, data: spec_freq_params(hz) }
}

/// The control request `set_amp_enable` issues.
pub open spec fn amp_op(enable: bool) -> UsbOp {
    UsbOp::ControlOut {
        request: 17,
        value: if enable { 1u16 } else { 0u16 },
        index: 0,
        data: Seq::<u8>::empty(),
    }
}

/// The control request `set_antenna_enable` issues.
pub open spec fn antenna_op(enable: bool) -> UsbOp {
    UsbOp::ControlOut {
        request: 23,
        value: if enable { 1u16 } else { 0u16 },
        index: 0,
        data: Seq::<u8>::empty(),
    }
}

/// The `SampleRateSet` control request `set_sample_rate` issues.
pub open spec fn rate_op(hz: u32, div: u32) -> UsbOp {
    UsbOp::ControlOut { request: 6, value: 0, index: 0, data: spec_rate_params(hz, div) }
}

/// The control request `set_baseband_filter_bandwidth` issues: the low
/// 16 bits of the bandwidth in `value`, the high 16 bits in `index`.
pub open spec fn bandwidth_op(hz: u32) -> UsbOp {
    UsbOp::ControlOut {
        request: 7,
        value: (hz & 0xFFFF) as u16,
        index: (hz >> 16) as u16,
        data: Seq::<u8>::empty(),
    }
}

/// The `SetTransceiverMode` control request with the given wire value.
pub open spec fn mode_op(value: u16) -> UsbOp {
    UsbOp::ControlOut { request: 1, value: value, index: 0, data: Seq::<u8>::empty() }
}

/// The full sequence of control requests `start_rx`/`start_tx` apply
/// from a configuration, in the fixed order the firmware expects:
/// LNA gain, VGA gain, TX-VGA gain, frequency, amplifier, antenna
/// power, sample rate with its dependent filter bandwidth.
pub open spec fn config_ops(c: Config) -> Seq<UsbOp> {
    seq![
        lna_op(c.lna_db),
        vga_op(c.vga_db),
        txvga_op(c.txvga_db),
        freq_op(c.frequency_hz),
        amp_op(c.power_port_enable),
        antenna_op(c.antenna_enable),
        rate_op(c.sample_rate_hz, c.sample_rate_div),
        bandwidth_op(spec_filter_bandwidth(c.sample_rate_hz, c.sample_rate_div)),
    ]
}

/// `new` extends `old` by some prefix of `full`: the log grew by the
/// first operations of a planned sequence, up to the point a failure
/// cut it short.
pub open spec fn log_grew_prefix(new: Seq<UsbOp>, old: Seq<UsbOp>, full: Seq<UsbOp>) -> bool {
    &&& old.len() <= new.len() <= old.len() + full.len()
    &&& new == old + full.take(new.len() - old.len())
}

/// A HackRF One radio: an exclusively owned USB session, the mode
/// state machine, the transfer timeout, and the device firmware
/// version captured at open time.
pub struct HackRf<T> {
    transport: T,
    mode: Mode,
    version: UsbVersion,
    timeout_nanos: u64,
    ops: Ghost<Seq<UsbOp>>,
}

impl<T> HackRf<T> {
    /// The log of USB operations this driver has issued.
    pub closed spec fn log(&self) -> Seq<UsbOp> {
        self.ops@
    }

    /// The radio's current mode.
    pub closed spec fn spec_mode(&self) -> Mode {
        self.mode
    }

    /// The device firmware version captured at open time.
    pub closed spec fn spec_version(&self) -> UsbVersion {
        self.version
    }

    /// The configured transfer timeout in nanoseconds.
    pub closed spec fn spec_timeout_nanos(&self) -> u64 {
        self.timeout_nanos
    }

    /// Mode, version and timeout are as in `other`; only the log (and
    /// the backend) may differ.
    pub open spec fn same_radio_state(&self, other: &Self) -> bool {
        &&& self.spec_mode() == other.spec_mode()
        &&& self.spec_version() == other.spec_version()
        &&& self.spec_timeout_nanos() == other.spec_timeout_nanos()
    }

    /// The backend this radio speaks through.
    pub fn transport(&self) -> &T {
        &self.transport
    }

    /// The structured firmware version of the device.
    pub fn device_version(&self) -> (r: UsbVersion)
        ensures
            r == self.spec_version(),
    {
        self.version
    }

    /// The configured transfer timeout, in nanoseconds.
    pub fn transfer_timeout_nanos(&self) -> (r: u64)
        ensures
            r == self.spec_timeout_nanos(),
    {
        self.timeout_nanos
    }

    /// Change the transfer timeout. Takes effect for subsequent
    /// control and bulk transfers; independent of the mode. A timeout
    /// beyond what the USB backend can carry saturates at that
    /// maximum.
    pub fn set_transfer_timeout_nanos(&mut self, nanos: u64)
        ensures
            final(self).spec_timeout_nanos() == (if nanos > MAX_TIMEOUT_NANOS {
                MAX_TIMEOUT_NANOS
            } else {
                nanos
            }),
            final(self).spec_mode() == old(self).spec_mode(),
            final(self).spec_version() == old(self).spec_version(),
            final(self).log() == old(self).log(),
    {
        self.timeout_nanos = if nanos > MAX_TIMEOUT_NANOS {
            MAX_TIMEOUT_NANOS
        } else {
            nanos
        };
    }
}

impl<T: Transport> HackRf<T> {
    /// Wrap an already opened transport. The radio starts out idle
    /// with the default timeout, and its operation log is empty.
    pub fn new(transport: T, version: UsbVersion) -> (r: Self)
        ensures
            r.spec_mode() == Mode::Idle,
            r.spec_version() == version,
            r.spec_timeout_nanos() == DEFAULT_TIMEOUT_NANOS,
            r.log() == Seq::<UsbOp>::empty(),
    {
        HackRf {
            transport,
            mode: Mode::Idle,
            version,
            timeout_nanos: DEFAULT_TIMEOUT_NANOS,
            ops: Ghost(Seq::empty()),
        }
    }

    /// Issue one vendor OUT control request carrying `data`; the
    /// result is decided from the transport's answer by
    /// [`control_out_outcome`]: success exactly when the device
    /// accepted all the bytes.
    fn write_control(&mut self, request: Request, value: u16, index: u16, data: &[u8]) -> (r:
        Result<(), Error>)
        ensures
            final(self).same_radio_state(old(self)),
            final(self).log() == old(self).log().push(
                UsbOp::ControlOut { request: request.spec_code(), value, index, data: data@ },
            ),
            r matches Err(e) ==> (e is Transport || (e matches Error::TransferTruncated {
                actual,
                expected,
            } && expected == data@.len() && actual != expected)),
    {
        self.ops = Ghost(
            self.ops@.push(
                UsbOp::ControlOut { request: request.spec_code(), value, index, data: data@ },
            ),
        );
        let res = self.transport.vendor_control_out(
            request.code(),
            value,
            index,
            data,
            self.timeout_nanos,
        );
        control_out_outcome(res, data.len())
    }

    /// Issue one vendor IN control request; the result is decided
    /// from the transport's answer by [`control_in_outcome`]: the
    /// bytes, exactly when there are `length` of them.
    fn read_control(&mut self, request: Request, value: u16, index: u16, length: u16) -> (r: Result<
        Vec<u8>,
        Error,
    >)
        ensures
            final(self).same_radio_state(old(self)),
            final(self).log() == old(self).log().push(
                UsbOp::ControlIn { request: request.spec_code(), value, index, length },
            ),
            r matches Ok(v) ==> v@.len() == length,
            r matches Err(e) ==> (e is Transport || (e matches Error::TransferTruncated {
                actual,
                expected,
            } && expected == length && actual != expected)),
    {
        self.ops = Ghost(
            self.ops@.push(
                UsbOp::ControlIn { request: request.spec_code(), value, index, length },
            ),
        );
        let res = self.transport.vendor_control_in(
            request.code(),
            value,
            index,
            length,
            self.timeout_nanos,
        );
        control_in_outcome(res, length as usize)
    }

    /// Succeed exactly when the radio is in `expected` mode; otherwise
    /// report the mode that was required and the mode that was found.
    fn ensure_mode(&self, expected: Mode) -> (r: Result<(), Error>)
        ensures
            r matches Ok(_) <==> self.spec_mode() == expected,
            r matches Err(e) ==> e == (Error::WrongMode {
                required: expected,
                actual: self.spec_mode(),
            }),
    {
        if self.mode == expected {
            Ok(())
        } else {
            Err(Error::WrongMode { required: expected, actual: self.mode })
        }
    }

    /// Compare the device firmware version against a required minimum,
    /// without any I/O. Succeeds exactly when the device version is at
    /// least `min`, componentwise in major, minor, sub-minor order.
    pub fn check_api_version(&self, min: UsbVersion) -> (r: Result<(), Error>)
        ensures
            r matches Ok(_) <==> self.spec_version().spec_key() >= min.spec_key(),
            r matches Err(e) ==> e == (Error::NoApi { device: self.spec_version(), min }),
    {
        if self.version.key() >= min.key() {
            Ok(())
        } else {
            Err(Error::NoApi { device: self.version, min })
        }
    }

    /// Set the center frequency. Issues exactly the `SetFreq` request
    /// with the split MHz/Hz little-endian payload.
    pub fn set_freq(&mut self, hz: u64) -> (r: Result<(), Error>)
        ensures
            final(self).same_radio_state(old(self)),
            final(self).log() == old(self).log().push(freq_op(hz)),
            r matches Err(e) ==> (e is Transport || e is TransferTruncated),
    {
        let buf = freq_params(hz);
        self.write_control(Request::SetFreq, 0, 0, buf.as_slice())
    }

    /// Enable or disable the RF amplifier, as one `AmpEnable` request.
    pub fn set_amp_enable(&mut self, enable: bool) -> (r: Result<(), Error>)
        ensures
            final(self).same_radio_state(old(self)),
            final(self).log() == old(self).log().push(amp_op(enable)),
            r matches Err(e) ==> (e is Transport || e is TransferTruncated),
    {
        let value: u16 = if enable { 1 } else { 0 };
        let empty: [u8; 0] = [];
        let r = self.write_control(Request::AmpEnable, value, 0, empty.as_slice());
        proof {
            assert(self.log() =~~= old(self).log().push(amp_op(enable)));
        }
        r
    }

    /// Enable or disable antenna port power, as one `AntennaEnable`
    /// request.
    pub fn set_antenna_enable(&mut self, enable: bool) -> (r: Result<(), Error>)
        ensures
            final(self).same_radio_state(old(self)),
            final(self).log() == old(self).log().push(antenna_op(enable)),
            r matches Err(e) ==> (e is Transport || e is TransferTruncated),
    {
        let value: u16 = if enable { 1 } else { 0 };
        let empty: [u8; 0] = [];
        let r = self.write_control(Request::AntennaEnable, value, 0, empty.as_slice());
        proof {
            assert(self.log() =~~= old(self).log().push(antenna_op(enable)));
        }
        r
    }

    /// Set the baseband filter bandwidth: the low 16 bits of `hz` ride
    /// in the request value, the high 16 bits in the index.
    ///
    /// This is set automatically whenever the sample rate is changed.
    pub fn set_baseband_filter_bandwidth(&mut self, hz: u32) -> (r: Result<(), Error>)
        ensures
            final(self).same_radio_state(old(self)),
            final(self).log() == old(self).log().push(bandwidth_op(hz)),
            r matches Err(e) ==> (e is Transport || e is TransferTruncated),
    {
        let empty: [u8; 0] = [];
        let r = self.write_control(
            Request::BasebandFilterBandwidthSet,
            (hz & 0xFFFF) as u16,
            (hz >> 16) as u16,
            empty.as_slice(),
        );
        proof {
            assert(self.log() =~~= old(self).log().push(bandwidth_op(hz)));
        }
        r
    }

    /// Set the sample rate. Issues exactly one `SampleRateSet` request
    /// and then exactly one `BasebandFilterBandwidthSet` request whose
    /// bandwidth is 75% of the per-divisor rate, rounded down — the
    /// fixed anti-aliasing margin, applied on every rate change.
    pub fn set_sample_rate(&mut self, hz: u32, div: u32) -> (r: Result<(), Error>)
        ensures
            final(self).same_radio_state(old(self)),
            log_grew_prefix(
                final(self).log(),
                old(self).log(),
                seq![rate_op(hz, div), bandwidth_op(spec_filter_bandwidth(hz, div))],
            ),
            final(self).log().len() > old(self).log().len(),
            r matches Ok(_) ==> final(self).log() == old(self).log() + seq![
                rate_op(hz, div),
                bandwidth_op(spec_filter_bandwidth(hz, div)),
            ],
            r matches Err(e) ==> (e is Transport || e is TransferTruncated),
    {
        let ghost full = seq![rate_op(hz, div), bandwidth_op(spec_filter_bandwidth(hz, div))];
        let buf = rate_params(hz, div);
        match self.write_control(Request::SampleRateSet, 0, 0, buf.as_slice()) {
            Err(e) => {
                proof {
                    assert(self.log() =~= old(self).log() + full.take(1));
                }
                Err(e)
            },
            Ok(_) => {
                let bw = filter_bandwidth(hz, div);
                let res = self.set_baseband_filter_bandwidth(bw);
                proof {
                    assert(self.log() =~= old(self).log() + full.take(2));
                }
                res
            },
        }
    }

    /// Set the LNA (IF) gain, 0-40 dB in 8 dB steps. A gain above 40
    /// is rejected as an argument error before any request is issued;
    /// otherwise exactly one `SetLnaGain` request goes out, with the
    /// gain masked to 8 dB granularity, and the result is decided
    /// from the device's acknowledgement byte by [`gain_ack_outcome`].
    pub fn set_lna_gain(&mut self, gain: u16) -> (r: Result<(), Error>)
        ensures
            final(self).same_radio_state(old(self)),
            gain > 40 ==> (r matches Err(Error::Argument(_)) && final(self).log() == old(self).log()),
            gain <= 40 ==> final(self).log() == old(self).log().push(lna_op(gain)),
            r matches Err(Error::Argument(_)) ==> gain > 40,
            r matches Ok(_) ==> gain <= 40,
            r matches Err(e) ==> (e is Argument || e is Transport || e is TransferTruncated),
    {
        if gain > 40 {
            Err(Error::Argument("lna gain must be less than 40"))
        } else {
            match self.read_control(Request::SetLnaGain, 0, gain & !0x07u16, 1) {
                Err(e) => Err(e),
                Ok(buf) => gain_ack_outcome(buf[0]),
            }
        }
    }

    /// Set the baseband VGA gain, 0-62 dB in 2 dB steps. An odd gain
    /// or one above 62 is rejected as an argument error before any
    /// request is issued; otherwise exactly one `SetVgaGain` request
    /// goes out, and the result is decided from the device's
    /// acknowledgement byte by [`gain_ack_outcome`].
    pub fn set_vga_gain(&mut self, gain: u16) -> (r: Result<(), Error>)
        ensures
            final(self).same_radio_state(old(self)),
            (gain > 62 || gain % 2 == 1) ==> (r matches Err(Error::Argument(_)) && final(self).log()
                == old(self).log()),
            (gain <= 62 && gain % 2 == 0) ==> final(self).log() == old(self).log().push(vga_op(gain)),
            r matches Err(Error::Argument(_)) ==> (gain > 62 || gain % 2 == 1),
            r matches Ok(_) ==> gain <= 62 && gain % 2 == 0,
            r matches Err(e) ==> (e is Argument || e is Transport || e is TransferTruncated),
    {
        if gain > 62 || gain % 2 == 1 {
            Err(Error::Argument("gain parameter out of range. must be even and less than or equal to 62"))
        } else {
            match self.read_control(Request::SetVgaGain, 0, gain & !0x01u16, 1) {
                Err(e) => Err(e),
                Ok(buf) => gain_ack_outcome(buf[0]),
            }
        }
    }

    /// Set the transmit VGA gain, 0-47 dB in 1 dB steps. A gain above
    /// 47 is rejected as an argument error before any request is
    /// issued; otherwise exactly one `SetTxvgaGain` request goes out,
    /// and the result is decided from the device's acknowledgement
    /// byte by [`gain_ack_outcome`].
    pub fn set_txvga_gain(&mut self, gain: u16) -> (r: Result<(), Error>)
        ensures
            final(self).same_radio_state(old(self)),
            gain > 47 ==> (r matches Err(Error::Argument(_)) && final(self).log() == old(self).log()),
            gain <= 47 ==> final(self).log() == old(self).log().push(txvga_op(gain)),
            r matches Err(Error::Argument(_)) ==> gain > 47,
            r matches Ok(_) ==> gain <= 47,
            r matches Err(e) ==> (e is Argument || e is Transport || e is TransferTruncated),
    {
        if gain > 47 {
            Err(Error::Argument("gain parameter out of range. max is 47"))
        } else {
            match self.read_control(Request::SetTxvgaGain, 0, gain, 1) {
                Err(e) => Err(e),
                Ok(buf) => gain_ack_outcome(buf[0]),
            }
        }
    }

    /// Apply a whole configuration in the fixed order of
    /// [`config_ops`]. On success the log grew by exactly that
    /// sequence; on failure by a prefix of it, and an argument error
    /// occurs exactly for a configuration with an out-of-range gain.
    /// An out-of-range LNA gain, checked first, is rejected before any
    /// request is issued.
    fn apply_config(&mut self, config: &Config) -> (r: Result<(), Error>)
        ensures
            final(self).same_radio_state(old(self)),
            log_grew_prefix(final(self).log(), old(self).log(), config_ops(*config)),
            r matches Ok(_) ==> final(self).log() == old(self).log() + config_ops(*config)
                && config.spec_valid(),
            r matches Err(Error::Argument(_)) ==> !config.spec_valid(),
            r matches Err(e) ==> (e is Argument || e is Transport || e is TransferTruncated),
            config.lna_db > 40 ==> (r matches Err(Error::Argument(_)) && final(self).log()
                == old(self).log()),
    {
        let ghost full = config_ops(*config);
        let ghost base = self.log();
        match self.set_lna_gain(config.lna_db) {
            Err(e) => {
                proof {
                    assert(self.log() =~= base + full.take(self.log().len() - base.len()));
                }
                return Err(e);
            },
            Ok(_) => {},
        }
        proof {
            assert(self.log() =~= base + full.take(1));
        }
        match self.set_vga_gain(config.vga_db) {
            Err(e) => {
                proof {
                    assert(self.log() =~= base + full.take(self.log().len() - base.len()));
                }
                return Err(e);
            },
            Ok(_) => {},
        }
        proof {
            assert(self.log() =~= base + full.take(2));
        }
        match self.set_txvga_gain(config.txvga_db) {
            Err(e) => {
                proof {
                    assert(self.log() =~= base + full.take(self.log().len() - base.len()));
                }
                return Err(e);
            },
            Ok(_) => {},
        }
        proof {
            assert(self.log() =~= base + full.take(3));
        }
        match self.set_freq(config.frequency_hz) {
            Err(e) => {
                proof {
                    assert(self.log() =~= base + full.take(4));
                }
                return Err(e);
            },
            Ok(_) => {},
        }
        proof {
            assert(self.log() =~= base + full.take(4));
        }
        match self.set_amp_enable(config.power_port_enable) {
            Err(e) => {
                proof {
                    assert(self.log() =~= base + full.take(5));
                }
                return Err(e);
            },
            Ok(_) => {},
        }
        proof {
            assert(self.log() =~= base + full.take(5));
        }
        match self.set_antenna_enable(config.antenna_enable) {
            Err(e) => {
                proof {
                    assert(self.log() =~= base + full.take(6));
                }
                return Err(e);
            },
            Ok(_) => {},
        }
        proof {
            assert(self.log() =~= base + full.take(6));
        }
        let res = self.set_sample_rate(config.sample_rate_hz, config.sample_rate_div);
        proof {
            assert(full.take(6) + seq![
                rate_op(config.sample_rate_hz, config.sample_rate_div),
                bandwidth_op(
                    spec_filter_bandwidth(config.sample_rate_hz, config.sample_rate_div),
                ),
            ].take(self.log().len() - base.len() - 6) =~= full.take(
                self.log().len() - base.len(),
            ));
            assert(self.log() =~= base + full.take(self.log().len() - base.len()));
            if res is Ok {
                assert(self.log() =~= base + full);
            }
        }
        res
    }

    /// Transition the radio from idle into transmit mode, applying the
    /// configuration and then switching the transceiver on.
    ///
    /// Fails with a `WrongMode` error — exactly when the radio is not
    /// idle — without issuing any request. Once the radio has left
    /// idle, a later failure leaves it in transmit mode with a prefix
    /// of the request sequence issued, as the hardware saw it.
    pub fn start_tx(&mut self, config: &Config) -> (r: Result<(), Error>)
        ensures
            final(self).spec_version() == old(self).spec_version(),
            final(self).spec_timeout_nanos() == old(self).spec_timeout_nanos(),
            (r matches Err(e) && e is WrongMode) <==> old(self).spec_mode() != Mode::Idle,
            old(self).spec_mode() != Mode::Idle ==> r == Err::<(), Error>(
                Error::WrongMode { required: Mode::Idle, actual: old(self).spec_mode() },
            ) && final(self).spec_mode() == old(self).spec_mode() && final(self).log() == old(self).log(),
            old(self).spec_mode() == Mode::Idle ==> final(self).spec_mode() == Mode::Transmit
                && log_grew_prefix(
                final(self).log(),
                old(self).log(),
                config_ops(*config) + seq![mode_op(2)],
            ),
            r matches Ok(_) ==> old(self).spec_mode() == Mode::Idle && config.spec_valid()
                && final(self).log() == old(self).log() + config_ops(*config) + seq![mode_op(2)],
            r matches Err(Error::Argument(_)) ==> !config.spec_valid(),
            old(self).spec_mode() == Mode::Idle && config.lna_db > 40 ==> (r matches Err(
                Error::Argument(_),
            ) && final(self).log() == old(self).log()),
    {
        if self.mode == Mode::Idle {
            self.mode = Mode::Transmit;
        } else {
            return Err(Error::WrongMode { required: Mode::Idle, actual: self.mode });
        }
        let ghost base = self.log();
        let ghost full = config_ops(*config) + seq![mode_op(2)];
        match self.apply_config(config) {
            Err(e) => {
                proof {
                    let n = self.log().len() - base.len();
                    assert(config_ops(*config).take(n) =~= full.take(n));
                    assert(self.log() =~= base + full.take(n));
                }
                return Err(e);
            },
            Ok(_) => {},
        }
        let empty: [u8; 0] = [];
        let res = self.write_control(
            Request::SetTransceiverMode,
            TransceiverMode::Transmit.value(),
            0,
            empty.as_slice(),
        );
        proof {
            assert(full.take(9) =~~= full);
            assert(self.log() =~~= base + full.take(9));
        }
        res
    }

    /// Transition the radio from idle into receive mode, applying the
    /// configuration and then switching the transceiver on.
    ///
    /// Fails with a `WrongMode` error — exactly when the radio is not
    /// idle — without issuing any request. Once the radio has left
    /// idle, a later failure leaves it in receive mode with a prefix
    /// of the request sequence issued, as the hardware saw it.
    pub fn start_rx(&mut self, config: &Config) -> (r: Result<(), Error>)
        ensures
            final(self).spec_version() == old(self).spec_version(),
            final(self).spec_timeout_nanos() == old(self).spec_timeout_nanos(),
            (r matches Err(e) && e is WrongMode) <==> old(self).spec_mode() != Mode::Idle,
            old(self).spec_mode() != Mode::Idle ==> r == Err::<(), Error>(
                Error::WrongMode { required: Mode::Idle, actual: old(self).spec_mode() },
            ) && final(self).spec_mode() == old(self).spec_mode() && final(self).log() == old(self).log(),
            old(self).spec_mode() == Mode::Idle ==> final(self).spec_mode() == Mode::Receive
                && log_grew_prefix(
                final(self).log(),
                old(self).log(),
                config_ops(*config) + seq![mode_op(1)],
            ),
            r matches Ok(_) ==> old(self).spec_mode() == Mode::Idle && config.spec_valid()
                && final(self).log() == old(self).log() + config_ops(*config) + seq![mode_op(1)],
            r matches Err(Error::Argument(_)) ==> !config.spec_valid(),
            old(self).spec_mode() == Mode::Idle && config.lna_db > 40 ==> (r matches Err(
                Error::Argument(_),
            ) && final(self).log() == old(self).log()),
    {
        if self.mode == Mode::Idle {
            self.mode = Mode::Receive;
        } else {
            return Err(Error::WrongMode { required: Mode::Idle, actual: self.mode });
        }
        let ghost base = self.log();
        let ghost full = config_ops(*config) + seq![mode_op(1)];
        match self.apply_config(config) {
            Err(e) => {
                proof {
                    let n = self.log().len() - base.len();
                    assert(config_ops(*config).take(n) =~= full.take(n));
                    assert(self.log() =~= base + full.take(n));
                }
                return Err(e);
            },
            Ok(_) => {},
        }
        let empty: [u8; 0] = [];
        let res = self.write_control(
            Request::SetTransceiverMode,
            TransceiverMode::Receive.value(),
            0,
            empty.as_slice(),
        );
        proof {
            assert(full.take(9) =~~= full);
            assert(self.log() =~~= base + full.take(9));
        }
        res
    }

    /// Switch the transceiver off and return from transmit mode to
    /// idle. The off request is sent first, unconditionally, so racing
    /// stoppers at worst repeat it; the mode changes back to idle only
    /// when it was transmit, and a call in any other mode fails with a
    /// `WrongMode` error after the (harmless) off request.
    pub fn stop_tx(&mut self) -> (r: Result<(), Error>)
        ensures
            final(self).spec_version() == old(self).spec_version(),
            final(self).spec_timeout_nanos() == old(self).spec_timeout_nanos(),
            final(self).log() == old(self).log().push(mode_op(0)),
            r matches Ok(_) ==> old(self).spec_mode() == Mode::Transmit && final(self).spec_mode()
                == Mode::Idle,
            r matches Err(e) ==> final(self).spec_mode() == old(self).spec_mode(),
            r matches Err(e) ==> (e is Transport || e is TransferTruncated || e == (Error::WrongMode {
                required: Mode::Idle,
                actual: old(self).spec_mode(),
            })),
            (r matches Err(e) && e is WrongMode) ==> old(self).spec_mode() != Mode::Transmit,
    {
        let empty: [u8; 0] = [];
        match self.write_control(
            Request::SetTransceiverMode,
            TransceiverMode::Off.value(),
            0,
            empty.as_slice(),
        ) {
            Err(e) => {
                proof {
                    assert(self.log() =~~= old(self).log().push(mode_op(0)));
                }
                return Err(e);
            },
            Ok(_) => {},
        }
        proof {
            assert(self.log() =~~= old(self).log().push(mode_op(0)));
        }
        if self.mode == Mode::Transmit {
            self.mode = Mode::Idle;
            Ok(())
        } else {
            Err(Error::WrongMode { required: Mode::Idle, actual: self.mode })
        }
    }

    /// Switch the transceiver off and return from receive mode to
    /// idle. The off request is sent first, unconditionally, so racing
    /// stoppers at worst repeat it; the mode changes back to idle only
    /// when it was receive, and a call in any other mode fails with a
    /// `WrongMode` error after the (harmless) off request.
    pub fn stop_rx(&mut self) -> (r: Result<(), Error>)
        ensures
            final(self).spec_version() == old(self).spec_version(),
            final(self).spec_timeout_nanos() == old(self).spec_timeout_nanos(),
            final(self).log() == old(self).log().push(mode_op(0)),
            r matches Ok(_) ==> old(self).spec_mode() == Mode::Receive && final(self).spec_mode()
                == Mode::Idle,
            r matches Err(e) ==> final(self).spec_mode() == old(self).spec_mode(),
            r matches Err(e) ==> (e is Transport || e is TransferTruncated || e == (Error::WrongMode {
                required: Mode::Idle,
                actual: old(self).spec_mode(),
            })),
            (r matches Err(e) && e is WrongMode) ==> old(self).spec_mode() != Mode::Receive,
    {
        let empty: [u8; 0] = [];
        match self.write_control(
            Request::SetTransceiverMode,
            TransceiverMode::Off.value(),
            0,
            empty.as_slice(),
        ) {
            Err(e) => {
                proof {
                    assert(self.log() =~~= old(self).log().push(mode_op(0)));
                }
                return Err(e);
            },
            Ok(_) => {},
        }
        proof {
            assert(self.log() =~~= old(self).log().push(mode_op(0)));
        }
        if self.mode == Mode::Receive {
            self.mode = Mode::Idle;
            Ok(())
        } else {
            Err(Error::WrongMode { required: Mode::Idle, actual: self.mode })
        }
    }

    /// Read sample bytes from the radio into `samples`.
    ///
    /// Fails with a `WrongMode` error when the radio is not receiving,
    /// and with an argument error when the buffer is not a multiple of
    /// the 512-byte USB packet size or is larger than one bulk
    /// transfer can carry — in all these cases before any bulk
    /// transfer is attempted. Otherwise performs exactly one bulk IN
    /// transfer on endpoint `0x81` and hands the received bytes to
    /// [`deliver_bulk_in`]: the count delivered comes back, and bytes
    /// past it keep their previous values.
    pub fn read(&mut self, samples: &mut Vec<u8>) -> (r: Result<usize, Error>)
        ensures
            final(self).same_radio_state(old(self)),
            final(samples)@.len() == old(samples)@.len(),
            old(self).spec_mode() != Mode::Receive ==> r == Err::<usize, Error>(
                Error::WrongMode { required: Mode::Receive, actual: old(self).spec_mode() },
            ) && final(self).log() == old(self).log() && final(samples)@ == old(samples)@,
            old(self).spec_mode() == Mode::Receive && (old(samples)@.len() % 512 != 0 || old(
                samples,
            )@.len() > MAX_BULK_BYTES) ==> (r matches Err(Error::Argument(_)) && final(self).log()
                == old(self).log() && final(samples)@ == old(samples)@),
            old(self).spec_mode() == Mode::Receive && old(samples)@.len() % 512 == 0 && old(
                samples,
            )@.len() <= MAX_BULK_BYTES ==> final(self).log() == old(self).log().push(
                UsbOp::BulkIn { endpoint: 0x81, length: old(samples)@.len() as usize },
            ),
            r matches Ok(n) ==> old(self).spec_mode() == Mode::Receive && old(samples)@.len() % 512
                == 0 && n <= final(samples)@.len() && final(samples)@.skip(n as int) == old(samples)@.skip(
                n as int,
            ),
            r matches Err(e) ==> (e is WrongMode || e is Argument || e is Transport) && final(samples)@
                == old(samples)@,
            (r matches Err(e) && e is WrongMode) ==> old(self).spec_mode() != Mode::Receive,
            r matches Err(Error::Argument(_)) ==> old(self).spec_mode() == Mode::Receive && (old(
                samples,
            )@.len() % 512 != 0 || old(samples)@.len() > MAX_BULK_BYTES),
    {
        match self.ensure_mode(Mode::Receive) {
            Err(e) => {
                return Err(e);
            },
            Ok(_) => {},
        }
        if samples.len() % 512 != 0 {
            return Err(Error::Argument("samples must be a multiple of 512"));
        }
        if samples.len() > MAX_BULK_BYTES {
            return Err(Error::Argument("samples exceed one bulk transfer"));
        }
        let len = samples.len();
        self.ops = Ghost(self.ops@.push(UsbOp::BulkIn { endpoint: 0x81, length: len }));
        let buf = match self.transport.bulk_in(0x81, len, self.timeout_nanos) {
            Err(_) => {
                return Err(Error::Transport);
            },
            Ok(buf) => buf,
        };
        let n = deliver_bulk_in(samples, &buf);
        proof {
            assert(samples@.skip(n as int) =~= old(samples)@.skip(n as int));
        }
        Ok(n)
    }

    /// Write sample bytes from `samples` to the radio.
    ///
    /// Fails with a `WrongMode` error when the radio is not
    /// transmitting, and with an argument error when the buffer is not
    /// a multiple of the 512-byte USB packet size or is larger than
    /// one bulk transfer can carry — in all these cases before any
    /// bulk transfer is attempted. Otherwise performs exactly one bulk
    /// OUT transfer on endpoint `0x02` and returns, through
    /// [`bulk_out_count`], the count the transport reported, clamped
    /// to the buffer's length.
    pub fn write(&mut self, samples: &[u8]) -> (r: Result<usize, Error>)
        ensures
            final(self).same_radio_state(old(self)),
            old(self).spec_mode() != Mode::Transmit ==> r == Err::<usize, Error>(
                Error::WrongMode { required: Mode::Transmit, actual: old(self).spec_mode() },
            ) && final(self).log() == old(self).log(),
            old(self).spec_mode() == Mode::Transmit && (samples@.len() % 512 != 0 || samples@.len()
                > MAX_BULK_BYTES) ==> (r matches Err(Error::Argument(_)) && final(self).log()
                == old(self).log()),
            old(self).spec_mode() == Mode::Transmit && samples@.len() % 512 == 0 && samples@.len()
                <= MAX_BULK_BYTES ==> final(self).log() == old(self).log().push(
                UsbOp::BulkOut { endpoint: 0x02, data: samples@ },
            ),
            r matches Ok(n) ==> old(self).spec_mode() == Mode::Transmit && samples@.len() % 512
                == 0 && n <= samples@.len(),
            r matches Err(e) ==> (e is WrongMode || e is Argument || e is Transport),
            (r matches Err(e) && e is WrongMode) ==> old(self).spec_mode() != Mode::Transmit,
            r matches Err(Error::Argument(_)) ==> old(self).spec_mode() == Mode::Transmit && (
            samples@.len() % 512 != 0 || samples@.len() > MAX_BULK_BYTES),
    {
        match self.ensure_mode(Mode::Transmit) {
            Err(e) => {
                return Err(e);
            },
            Ok(_) => {},
        }
        if samples.len() % 512 != 0 {
            return Err(Error::Argument("samples must be a multiple of 512"));
        }
        if samples.len() > MAX_BULK_BYTES {
            return Err(Error::Argument("samples exceed one bulk transfer"));
        }
        self.ops = Ghost(self.ops@.push(UsbOp::BulkOut { endpoint: 0x02, data: samples@ }));
        let res = self.transport.bulk_out(0x02, samples, self.timeout_nanos);
        bulk_out_count(res, samples.len())
    }

    /// Read the one-byte board identifier, as one `BoardIdRead`
    /// request.
    pub fn board_id(&mut self) -> (r: Result<u8, Error>)
        ensures
            final(self).same_radio_state(old(self)),
            final(self).log() == old(self).log().push(
                UsbOp::ControlIn { request: 14, value: 0, index: 0, length: 1 },
            ),
            r matches Err(e) ==> (e is Transport || e is TransferTruncated),
    {
        match self.read_control(Request::BoardIdRead, 0, 0, 1) {
            Err(e) => Err(e),
            Ok(buf) => Ok(buf[0]),
        }
    }

    /// Read the firmware version string: one `VersionStringRead`
    /// request for up to 64 bytes, decoded as UTF-8 with replacement
    /// characters. A short answer is not an error.
    pub fn version(&mut self) -> (r: Result<String, Error>)
        ensures
            final(self).same_radio_state(old(self)),
            final(self).log() == old(self).log().push(
                UsbOp::ControlIn { request: 15, value: 0, index: 0, length: 64 },
            ),
            r matches Err(e) ==> e is Transport,
    {
        self.ops = Ghost(
            self.ops@.push(UsbOp::ControlIn { request: 15, value: 0, index: 0, length: 64 }),
        );
        let res = self.transport.vendor_control_in(
            Request::VersionStringRead.code(),
            0,
            0,
            64,
            self.timeout_nanos,
        );
        match res {
            Err(_) => Err(Error::Transport),
            Ok(buf) => Ok(utf8_lossy_string(&buf)),
        }
    }

    /// Reset the device, consuming the driver. Requires firmware
    /// 1.0.2 or newer; an older device is reported — without any I/O —
    /// as lacking the API.
    pub fn reset(self) -> (r: Result<(), Error>)
        ensures
            r matches Err(Error::NoApi { device, min }) ==> device == self.spec_version() && min
                == UsbVersion(1, 0, 2) && device.spec_key() < min.spec_key(),
            self.spec_version().spec_key() < UsbVersion(1, 0, 2).spec_key() ==> r == Err::<
                (),
                Error,
            >(Error::NoApi { device: self.spec_version(), min: UsbVersion(1, 0, 2) }),
            r matches Err(e) ==> (e is NoApi || e is Transport || e is TransferTruncated),
    {
        let mut dev = self;
        let min = UsbVersion::from_bcd(0x0102);
        proof {
            assert((0x0102u16 >> 8) & 0xF == 1) by (bit_vector);
            assert(0x0102u16 >> 12 == 0) by (bit_vector);
            assert((0x0102u16 >> 4) & 0xF == 0) by (bit_vector);
            assert(0x0102u16 & 0xF == 2) by (bit_vector);
        }
        match dev.check_api_version(min) {
            Err(e) => {
                return Err(e);
            },
            Ok(_) => {},
        }
        let empty: [u8; 0] = [];
        dev.write_control(Request::Reset, 0, 0, empty.as_slice())
    }
}

impl HackRf<UsbTransport> {
    /// Open one enumerated device: claim interface 0 and capture its
    /// BCD firmware version. A fresh driver is idle, has an empty
    /// operation log, and the default timeout.
    fn open(info: &nusb::DeviceInfo) -> (r: Result<Self, Error>)
        ensures
            r matches Ok(d) ==> d.spec_mode() == Mode::Idle && d.log() == Seq::<UsbOp>::empty()
                && d.spec_timeout_nanos() == DEFAULT_TIMEOUT_NANOS,
            r matches Err(e) ==> e is Transport,
    {
        let raw = info.device_version();
        let device = match crate::transport::usb_open(info) {
            Err(_) => {
                return Err(Error::Transport);
            },
            Ok(d) => d,
        };
        let interface = match crate::transport::usb_claim_interface(&device, 0) {
            Err(_) => {
                return Err(Error::Transport);
            },
            Ok(i) => i,
        };
        Ok(HackRf::new(UsbTransport::new(interface), UsbVersion::from_bcd(raw)))
    }

    /// Open the first HackRF One found on the bus, skipping devices
    /// that fail to open. Fails with `NotFound` when none matches.
    pub fn open_first() -> (r: Result<Self, Error>)
        ensures
            r matches Ok(d) ==> d.spec_mode() == Mode::Idle && d.log() == Seq::<UsbOp>::empty()
                && d.spec_timeout_nanos() == DEFAULT_TIMEOUT_NANOS,
            r matches Err(e) ==> (e is Transport || e is NotFound),
    {
        let devices = match crate::transport::usb_list_devices() {
            Err(_) => {
                return Err(Error::Transport);
            },
            Ok(v) => v,
        };
        let mut i: usize = 0;
        while i < devices.len()
            invariant
                i <= devices@.len(),
            decreases devices@.len() - i,
        {
            let info = &devices[i];
            if info.vendor_id() == HACKRF_USB_VID && info.product_id() == HACKRF_ONE_USB_PID {
                match Self::open(info) {
                    Ok(dev) => {
                        return Ok(dev);
                    },
                    Err(_) => {},
                }
            }
            i += 1;
        }
        Err(Error::NotFound)
    }

    /// List the `(bus number, device address)` of every HackRF One on
    /// the bus.
    pub fn scan() -> (r: Result<Vec<(u8, u8)>, Error>)
        ensures
            r matches Err(e) ==> e is Transport,
    {
        let devices = match crate::transport::usb_list_devices() {
            Err(_) => {
                return Err(Error::Transport);
            },
            Ok(v) => v,
        };
        let mut res: Vec<(u8, u8)> = Vec::new();
        let mut i: usize = 0;
        while i < devices.len()
            invariant
                i <= devices@.len(),
            decreases devices@.len() - i,
        {
            let info = &devices[i];
            if info.vendor_id() == HACKRF_USB_VID && info.product_id() == HACKRF_ONE_USB_PID {
                res.push((info.bus_number(), info.device_address()));
            }
            i += 1;
        }
        Ok(res)
    }

    /// Open the HackRF One at the given bus number and address. Fails
    /// with `NotFound` when no HackRF One sits at that address.
    pub fn open_bus(bus_number: u8, address: u8) -> (r: Result<Self, Error>)
        ensures
            r matches Ok(d) ==> d.spec_mode() == Mode::Idle && d.log() == Seq::<UsbOp>::empty()
                && d.spec_timeout_nanos() == DEFAULT_TIMEOUT_NANOS,
            r matches Err(e) ==> (e is Transport || e is NotFound),
    {
        let devices = match crate::transport::usb_list_devices() {
            Err(_) => {
                return Err(Error::Transport);
            },
            Ok(v) => v,
        };
        let mut i: usize = 0;
        while i < devices.len()
            invariant
                i <= devices@.len(),
            decreases devices@.len() - i,
        {
            let info = &devices[i];
            if info.vendor_id() == HACKRF_USB_VID && info.product_id() == HACKRF_ONE_USB_PID
                && info.bus_number() == bus_number && info.device_address() == address {
                return Self::open(info);
            }
            i += 1;
        }
        Err(Error::NotFound)
    }
}

} // verus!
