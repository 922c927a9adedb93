use seify::hackrfone::bulk_out_count;
use seify::hackrfone::control_in_outcome;
use seify::hackrfone::control_out_outcome;
use seify::hackrfone::deliver_bulk_in;
use seify::hackrfone::gain_ack_outcome;
use seify::hackrfone::Config;
use seify::hackrfone::Error;
use seify::hackrfone::HackRf;
use seify::hackrfone::Mode;
use seify::transport::Transport;
use seify::transport::TransportFault;
use seify::UsbVersion;

/// A scripted USB backend that records every transfer the driver
/// issues.
struct MockTransport {
    control_in_calls: Vec<(u8, u16, u16, u16)>,
    control_out_calls: Vec<(u8, u16, u16, Vec<u8>)>,
    bulk_in_calls: Vec<(u8, usize)>,
    bulk_out_calls: Vec<(u8, Vec<u8>)>,
    /// Byte used to fill control-read answers (the gain ack byte).
    ack: u8,
    /// Fail every control-out transfer.
    fail_control_out: bool,
    /// Report one byte more than was handed over on control-out.
    short_control_out: bool,
    /// Answer bulk-in requests with this many bytes.
    bulk_in_len: Option<usize>,
    /// Report more bytes sent than were handed over on bulk-out.
    bulk_out_overreport: bool,
}

impl MockTransport {
    fn new() -> Self {
        MockTransport {
            control_in_calls: Vec::new(),
            control_out_calls: Vec::new(),
            bulk_in_calls: Vec::new(),
            bulk_out_calls: Vec::new(),
            ack: 1,
            fail_control_out: false,
            short_control_out: false,
            bulk_in_len: None,
            bulk_out_overreport: false,
        }
    }

    fn control_transfers(&self) -> usize {
        self.control_in_calls.len() + self.control_out_calls.len()
    }

    fn bulk_transfers(&self) -> usize {
        self.bulk_in_calls.len() + self.bulk_out_calls.len()
    }
}

impl Transport for MockTransport {
    fn vendor_control_in(
        &mut self,
        request: u8,
        value: u16,
        index: u16,
        length: u16,
        _timeout_nanos: u64,
    ) -> Result<Vec<u8>, TransportFault> {
        self.control_in_calls.push((request, value, index, length));
        Ok(vec![self.ack; length as usize])
    }

    fn vendor_control_out(
        &mut self,
        request: u8,
        value: u16,
        index: u16,
        data: &[u8],
        _timeout_nanos: u64,
    ) -> Result<usize, TransportFault> {
        self.control_out_calls.push((request, value, index, data.to_vec()));
        if self.fail_control_out {
            return Err(TransportFault);
        }
        if self.short_control_out {
            return Ok(data.len() + 1);
        }
        Ok(data.len())
    }

    fn bulk_in(
        &mut self,
        endpoint: u8,
        length: usize,
        _timeout_nanos: u64,
    ) -> Result<Vec<u8>, TransportFault> {
        self.bulk_in_calls.push((endpoint, length));
        let n = self.bulk_in_len.unwrap_or(length);
        Ok(vec![0xAB; n])
    }

    fn bulk_out(
        &mut self,
        endpoint: u8,
        data: &[u8],
        _timeout_nanos: u64,
    ) -> Result<usize, TransportFault> {
        self.bulk_out_calls.push((endpoint, data.to_vec()));
        if self.bulk_out_overreport {
            Ok(data.len() + 7)
        } else {
            Ok(data.len())
        }
    }
}

fn radio() -> HackRf<MockTransport> {
    HackRf::new(MockTransport::new(), UsbVersion(1, 2, 0))
}

#[test]
fn lna_gain_out_of_range_issues_nothing() {
    let mut r = radio();
    assert!(matches!(r.set_lna_gain(41), Err(Error::Argument(_))));
    assert!(matches!(r.set_lna_gain(u16::MAX), Err(Error::Argument(_))));
    assert_eq!(r.transport().control_transfers(), 0);
}

#[test]
fn vga_gain_out_of_range_issues_nothing() {
    let mut r = radio();
    assert!(matches!(r.set_vga_gain(63), Err(Error::Argument(_))));
    assert!(matches!(r.set_vga_gain(64), Err(Error::Argument(_))));
    // Odd gains are rejected too.
    assert!(matches!(r.set_vga_gain(1), Err(Error::Argument(_))));
    assert_eq!(r.transport().control_transfers(), 0);
}

#[test]
fn txvga_gain_out_of_range_issues_nothing() {
    let mut r = radio();
    assert!(matches!(r.set_txvga_gain(48), Err(Error::Argument(_))));
    assert_eq!(r.transport().control_transfers(), 0);
}

#[test]
fn lna_gain_masks_to_8db_steps() {
    let mut r = radio();
    assert!(r.set_lna_gain(39).is_ok());
    assert_eq!(r.transport().control_in_calls, vec![(19, 0, 32, 1)]);
}

#[test]
fn vga_gain_in_range_issues_one_read() {
    let mut r = radio();
    assert!(r.set_vga_gain(24).is_ok());
    assert_eq!(r.transport().control_in_calls, vec![(20, 0, 24, 1)]);
}

#[test]
fn txvga_gain_in_range_issues_one_read() {
    let mut r = radio();
    assert!(r.set_txvga_gain(47).is_ok());
    assert_eq!(r.transport().control_in_calls, vec![(21, 0, 47, 1)]);
}

#[test]
fn zero_ack_byte_is_a_transport_error() {
    let mut r = HackRf::new(
        MockTransport {
            ack: 0,
            ..MockTransport::new()
        },
        UsbVersion(1, 2, 0),
    );
    assert!(matches!(r.set_lna_gain(8), Err(Error::Transport)));
}

#[test]
fn start_tx_twice_is_wrong_mode() {
    let mut r = radio();
    r.start_tx(&Config::tx_default()).unwrap();
    assert!(matches!(
        r.start_tx(&Config::tx_default()),
        Err(Error::WrongMode {
            required: Mode::Idle,
            actual: Mode::Transmit,
        })
    ));
}

#[test]
fn start_tx_sends_config_then_mode() {
    let mut r = radio();
    r.start_tx(&Config::tx_default()).unwrap();
    let t = r.transport();
    // Gain setters go out as control reads: LNA, VGA, TX-VGA.
    assert_eq!(t.control_in_calls, vec![(19, 0, 0, 1), (20, 0, 0, 1), (21, 0, 40, 1)]);
    // Then frequency, amplifier, antenna, sample rate, filter
    // bandwidth, and finally the transceiver mode.
    let outs: Vec<u8> = t.control_out_calls.iter().map(|c| c.0).collect();
    assert_eq!(outs, vec![16, 17, 23, 6, 7, 1]);
    let mode = t.control_out_calls.last().unwrap();
    assert_eq!((mode.0, mode.1, mode.2), (1, 2, 0));
}

#[test]
fn start_rx_sends_receive_mode() {
    let mut r = radio();
    r.start_rx(&Config::rx_default()).unwrap();
    let mode = r.transport().control_out_calls.last().unwrap();
    assert_eq!((mode.0, mode.1, mode.2), (1, 1, 0));
}

#[test]
fn start_tx_with_bad_config_is_argument_error() {
    let mut r = radio();
    let mut config = Config::tx_default();
    config.lna_db = 41;
    assert!(matches!(r.start_tx(&config), Err(Error::Argument(_))));
    // The mode was taken before the configuration was rejected.
    assert!(matches!(
        r.start_tx(&Config::tx_default()),
        Err(Error::WrongMode { .. })
    ));
}

#[test]
fn stop_tx_succeeds_exactly_once() {
    let mut r = radio();
    r.start_tx(&Config::tx_default()).unwrap();
    r.stop_tx().unwrap();
    assert!(matches!(r.stop_tx(), Err(Error::WrongMode { .. })));
    assert!(matches!(r.stop_tx(), Err(Error::WrongMode { .. })));
    assert!(matches!(r.stop_rx(), Err(Error::WrongMode { .. })));
    assert!(matches!(r.stop_rx(), Err(Error::WrongMode { .. })));
}

#[test]
fn stop_rx_succeeds_exactly_once() {
    let mut r = radio();
    r.start_rx(&Config::rx_default()).unwrap();
    r.stop_rx().unwrap();
    assert!(matches!(r.stop_rx(), Err(Error::WrongMode { .. })));
    assert!(matches!(r.stop_tx(), Err(Error::WrongMode { .. })));
}

#[test]
fn stop_sends_off_request_even_when_idle() {
    let mut r = radio();
    assert!(matches!(r.stop_tx(), Err(Error::WrongMode { .. })));
    assert_eq!(r.transport().control_out_calls, vec![(1, 0, 0, vec![])]);
}

#[test]
fn read_in_idle_is_wrong_mode_before_any_bulk_transfer() {
    let mut r = radio();
    let mut buf = vec![0u8; 512];
    assert!(matches!(
        r.read(&mut buf),
        Err(Error::WrongMode {
            required: Mode::Receive,
            actual: Mode::Idle,
        })
    ));
    assert_eq!(r.transport().bulk_transfers(), 0);
}

#[test]
fn write_in_idle_is_wrong_mode_before_any_bulk_transfer() {
    let mut r = radio();
    let buf = vec![0u8; 512];
    assert!(matches!(
        r.write(&buf),
        Err(Error::WrongMode {
            required: Mode::Transmit,
            actual: Mode::Idle,
        })
    ));
    assert_eq!(r.transport().bulk_transfers(), 0);
}

#[test]
fn misaligned_read_buffer_is_rejected_before_any_bulk_transfer() {
    let mut r = radio();
    r.start_rx(&Config::rx_default()).unwrap();
    let mut buf = vec![0u8; 100];
    assert!(matches!(r.read(&mut buf), Err(Error::Argument(_))));
    assert_eq!(r.transport().bulk_transfers(), 0);
}

#[test]
fn misaligned_write_buffer_is_rejected_before_any_bulk_transfer() {
    let mut r = radio();
    r.start_tx(&Config::tx_default()).unwrap();
    let buf = vec![0u8; 511];
    assert!(matches!(r.write(&buf), Err(Error::Argument(_))));
    assert_eq!(r.transport().bulk_transfers(), 0);
}

#[test]
fn read_uses_the_rx_endpoint() {
    let mut r = radio();
    r.start_rx(&Config::rx_default()).unwrap();
    let mut buf = vec![0u8; 1024];
    let n = r.read(&mut buf).unwrap();
    assert_eq!(n, 1024);
    assert!(buf.iter().all(|b| *b == 0xAB));
    assert_eq!(r.transport().bulk_in_calls, vec![(0x81, 1024)]);
}

#[test]
fn short_bulk_read_leaves_the_tail_untouched() {
    let mut mock = MockTransport::new();
    mock.bulk_in_len = Some(512);
    let mut r = HackRf::new(mock, UsbVersion(1, 2, 0));
    r.start_rx(&Config::rx_default()).unwrap();
    let mut buf = vec![0x11u8; 1024];
    let n = r.read(&mut buf).unwrap();
    assert_eq!(n, 512);
    assert!(buf[..512].iter().all(|b| *b == 0xAB));
    assert!(buf[512..].iter().all(|b| *b == 0x11));
}

#[test]
fn write_uses_the_tx_endpoint() {
    let mut r = radio();
    r.start_tx(&Config::tx_default()).unwrap();
    let buf = vec![0x55u8; 512];
    let n = r.write(&buf).unwrap();
    assert_eq!(n, 512);
    assert_eq!(r.transport().bulk_out_calls, vec![(0x02, vec![0x55u8; 512])]);
}

#[test]
fn set_sample_rate_sends_rate_then_bandwidth() {
    let mut r = radio();
    r.set_sample_rate(8_000_000, 1).unwrap();
    let outs = &r.transport().control_out_calls;
    assert_eq!(outs.len(), 2);
    // Exactly one SampleRateSet with the two little-endian fields.
    assert_eq!(outs[0].0, 6);
    assert_eq!(outs[0].3, vec![0x00, 0x12, 0x7A, 0x00, 1, 0, 0, 0]);
    // Followed by exactly one BasebandFilterBandwidthSet carrying
    // floor(0.75 * 8_000_000) = 6_000_000 split low/high.
    assert_eq!(outs[1].0, 7);
    assert_eq!(outs[1].1, (6_000_000u32 & 0xFFFF) as u16);
    assert_eq!(outs[1].2, (6_000_000u32 >> 16) as u16);
    assert_eq!(outs[1].3, vec![]);
}

#[test]
fn set_freq_sends_split_payload() {
    let mut r = radio();
    r.set_freq(915_000_001).unwrap();
    assert_eq!(
        r.transport().control_out_calls,
        vec![(16, 0, 0, vec![0x93, 0x03, 0, 0, 1, 0, 0, 0])]
    );
}

#[test]
fn truncated_control_write_is_reported_with_both_lengths() {
    let mut mock = MockTransport::new();
    mock.short_control_out = true;
    let mut r = HackRf::new(mock, UsbVersion(1, 2, 0));
    assert!(matches!(
        r.set_freq(1),
        Err(Error::TransferTruncated {
            actual: 9,
            expected: 8,
        })
    ));
}

#[test]
fn failed_control_write_is_a_transport_error() {
    let mut mock = MockTransport::new();
    mock.fail_control_out = true;
    let mut r = HackRf::new(mock, UsbVersion(1, 2, 0));
    assert!(matches!(r.set_freq(1), Err(Error::Transport)));
}

#[test]
fn reset_requires_new_enough_firmware() {
    let r = HackRf::new(MockTransport::new(), UsbVersion(1, 0, 1));
    assert!(matches!(
        r.reset(),
        Err(Error::NoApi {
            device: UsbVersion(1, 0, 1),
            min: UsbVersion(1, 0, 2),
        })
    ));
    let r = HackRf::new(MockTransport::new(), UsbVersion(1, 0, 2));
    assert!(r.reset().is_ok());
}

#[test]
fn check_api_version_compares_componentwise() {
    let r = HackRf::new(MockTransport::new(), UsbVersion(1, 2, 0));
    assert!(r.check_api_version(UsbVersion(1, 0, 2)).is_ok());
    assert!(r.check_api_version(UsbVersion(1, 2, 0)).is_ok());
    assert!(matches!(
        r.check_api_version(UsbVersion(1, 2, 1)),
        Err(Error::NoApi { .. })
    ));
}

#[test]
fn board_id_reads_one_byte() {
    let mut mock = MockTransport::new();
    mock.ack = 42;
    let mut r = HackRf::new(mock, UsbVersion(1, 2, 0));
    assert_eq!(r.board_id().unwrap(), 42);
    assert_eq!(r.transport().control_in_calls, vec![(14, 0, 0, 1)]);
}

#[test]
fn version_reads_up_to_64_bytes() {
    let mut mock = MockTransport::new();
    mock.ack = b'v';
    let mut r = HackRf::new(mock, UsbVersion(1, 2, 0));
    let v = r.version().unwrap();
    assert_eq!(v.len(), 64);
    assert!(v.chars().all(|c| c == 'v'));
    assert_eq!(r.transport().control_in_calls, vec![(15, 0, 0, 64)]);
}

#[test]
fn amp_and_antenna_carry_the_flag_in_the_value() {
    let mut r = radio();
    r.set_amp_enable(true).unwrap();
    r.set_amp_enable(false).unwrap();
    r.set_antenna_enable(true).unwrap();
    let outs = &r.transport().control_out_calls;
    assert_eq!(outs[0], (17, 1, 0, vec![]));
    assert_eq!(outs[1], (17, 0, 0, vec![]));
    assert_eq!(outs[2], (23, 1, 0, vec![]));
}

#[test]
fn timeout_is_adjustable_and_defaults_to_half_a_second() {
    let mut r = radio();
    assert_eq!(r.transfer_timeout_nanos(), 500_000_000);
    r.set_transfer_timeout_nanos(1_000_000);
    assert_eq!(r.transfer_timeout_nanos(), 1_000_000);
}

#[test]
fn timeout_saturates_at_the_backend_maximum() {
    let mut r = radio();
    r.set_transfer_timeout_nanos(u64::MAX);
    // u32::MAX milliseconds, in nanoseconds: the longest timeout the
    // USB backend can carry.
    assert_eq!(r.transfer_timeout_nanos(), 4_294_967_295_000_000);
    r.set_transfer_timeout_nanos(4_294_967_295_000_000);
    assert_eq!(r.transfer_timeout_nanos(), 4_294_967_295_000_000);
}

#[test]
fn write_count_is_clamped_to_the_buffer_length() {
    let mut mock = MockTransport::new();
    mock.bulk_out_overreport = true;
    let mut r = HackRf::new(mock, UsbVersion(1, 2, 0));
    r.start_tx(&Config::tx_default()).unwrap();
    let buf = vec![0u8; 512];
    assert_eq!(r.write(&buf).unwrap(), 512);
}

#[test]
fn device_version_is_the_captured_version() {
    let r = radio();
    assert_eq!(r.device_version(), UsbVersion(1, 2, 0));
}

#[test]
fn config_defaults() {
    let tx = Config::tx_default();
    assert_eq!(tx.txvga_db, 40);
    assert_eq!(tx.vga_db, 0);
    assert_eq!(tx.frequency_hz, 908_000_000);
    assert_eq!(tx.sample_rate_hz, 2_500_000);
    assert_eq!(tx.sample_rate_div, 1);
    let rx = Config::rx_default();
    assert_eq!(rx.vga_db, 24);
    assert_eq!(rx.txvga_db, 0);
}

#[test]
fn control_write_outcome_is_decided_by_the_reported_count() {
    assert!(matches!(control_out_outcome(Ok(8), 8), Ok(())));
    assert!(matches!(
        control_out_outcome(Ok(7), 8),
        Err(Error::TransferTruncated {
            actual: 7,
            expected: 8,
        })
    ));
    assert!(matches!(
        control_out_outcome(Ok(9), 8),
        Err(Error::TransferTruncated {
            actual: 9,
            expected: 8,
        })
    ));
    assert!(matches!(
        control_out_outcome(Err(TransportFault), 8),
        Err(Error::Transport)
    ));
}

#[test]
fn control_read_outcome_is_decided_by_the_answer_length() {
    assert_eq!(control_in_outcome(Ok(vec![1, 2]), 2).unwrap(), vec![1, 2]);
    assert!(matches!(
        control_in_outcome(Ok(vec![1]), 2),
        Err(Error::TransferTruncated {
            actual: 1,
            expected: 2,
        })
    ));
    assert!(matches!(
        control_in_outcome(Err(TransportFault), 2),
        Err(Error::Transport)
    ));
}

#[test]
fn gain_ack_nonzero_means_success() {
    assert!(gain_ack_outcome(1).is_ok());
    assert!(gain_ack_outcome(255).is_ok());
    assert!(matches!(gain_ack_outcome(0), Err(Error::Transport)));
}

#[test]
fn bulk_out_count_is_the_reported_count_clamped() {
    assert_eq!(bulk_out_count(Ok(512), 512).unwrap(), 512);
    assert_eq!(bulk_out_count(Ok(999), 512).unwrap(), 512);
    assert_eq!(bulk_out_count(Ok(100), 512).unwrap(), 100);
    assert!(matches!(
        bulk_out_count(Err(TransportFault), 512),
        Err(Error::Transport)
    ));
}

#[test]
fn deliver_bulk_in_copies_the_prefix_and_keeps_the_tail() {
    let mut buf = vec![9u8; 4];
    let n = deliver_bulk_in(&mut buf, &vec![1, 2]);
    assert_eq!(n, 2);
    assert_eq!(buf, vec![1, 2, 9, 9]);
    let n = deliver_bulk_in(&mut buf, &vec![5, 5, 5, 5, 5, 5]);
    assert_eq!(n, 4);
    assert_eq!(buf, vec![5; 4]);
}
