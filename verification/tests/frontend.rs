use seify::hackrfone::HackRf;
use seify::impls::hackrfone::HackRfOne;
use seify::transport::Transport;
use seify::transport::TransportFault;
use seify::Direction;
use seify::Driver;
use seify::Error;
use seify::UsbVersion;

/// A USB backend that answers every control read with one fixed byte.
struct FrontMock {
    fill: u8,
}

impl Transport for FrontMock {
    fn vendor_control_in(
        &mut self,
        _request: u8,
        _value: u16,
        _index: u16,
        length: u16,
        _timeout_nanos: u64,
    ) -> Result<Vec<u8>, TransportFault> {
        Ok(vec![self.fill; length as usize])
    }

    fn vendor_control_out(
        &mut self,
        _request: u8,
        _value: u16,
        _index: u16,
        data: &[u8],
        _timeout_nanos: u64,
    ) -> Result<usize, TransportFault> {
        Ok(data.len())
    }

    fn bulk_in(
        &mut self,
        _endpoint: u8,
        length: usize,
        _timeout_nanos: u64,
    ) -> Result<Vec<u8>, TransportFault> {
        Ok(vec![0; length])
    }

    fn bulk_out(
        &mut self,
        _endpoint: u8,
        data: &[u8],
        _timeout_nanos: u64,
    ) -> Result<usize, TransportFault> {
        Ok(data.len())
    }
}

fn front(fill: u8) -> HackRfOne<FrontMock> {
    HackRfOne::with_device(HackRf::new(FrontMock { fill }, UsbVersion(1, 2, 0)))
}

#[test]
fn frontend_driver_is_hackrf() {
    assert_eq!(front(1).driver(), Driver::HackRf);
}

#[test]
fn frontend_id_is_the_board_id_in_decimal() {
    let mut f = front(42);
    assert_eq!(f.id().unwrap(), "42");
}

#[test]
fn frontend_info_holds_the_firmware_version() {
    let mut f = front(b'x');
    let info = f.info().unwrap();
    let v = info.get("firmware version").unwrap();
    assert_eq!(v.len(), 64);
    assert!(v.chars().all(|c| c == 'x'));
}

#[test]
fn frontend_has_one_half_duplex_channel() {
    let f = front(1);
    assert_eq!(f.num_channels(Direction::Rx).unwrap(), 1);
    assert_eq!(f.num_channels(Direction::Tx).unwrap(), 1);
    assert_eq!(f.full_duplex(Direction::Rx, 0).unwrap(), false);
}

#[test]
fn frontend_antenna_names() {
    let f = front(1);
    assert_eq!(f.antenna(Direction::Rx, 0).unwrap(), "RX");
    assert_eq!(f.antenna(Direction::Tx, 0).unwrap(), "TX");
    assert_eq!(f.antenna(Direction::Rx, 1), Err(Error::ValueError));
    assert_eq!(f.antennas(Direction::Tx, 0).unwrap(), vec!["TX".to_owned()]);
    assert_eq!(f.antennas(Direction::Tx, 2), Err(Error::ValueError));
}

#[test]
fn frontend_set_antenna_accepts_only_the_fixed_port() {
    let f = front(1);
    assert!(f.set_antenna(Direction::Rx, 0, "RX").is_ok());
    assert!(f.set_antenna(Direction::Tx, 0, "TX").is_ok());
    assert_eq!(f.set_antenna(Direction::Rx, 0, "TX"), Err(Error::NotSupported));
    assert_eq!(f.set_antenna(Direction::Tx, 0, "ANT"), Err(Error::NotSupported));
    assert_eq!(f.set_antenna(Direction::Rx, 1, "RX"), Err(Error::ValueError));
}

#[test]
fn frontend_has_no_agc() {
    let f = front(1);
    assert_eq!(f.supports_agc(Direction::Rx, 0).unwrap(), false);
    assert_eq!(f.supports_agc(Direction::Rx, 1), Err(Error::ValueError));
    assert_eq!(f.enable_agc(Direction::Rx, 0, true), Err(Error::NotSupported));
    assert_eq!(f.enable_agc(Direction::Rx, 3, true), Err(Error::ValueError));
    assert_eq!(f.agc(Direction::Tx, 0), Err(Error::NotSupported));
    assert_eq!(f.agc(Direction::Tx, 9), Err(Error::ValueError));
}

#[test]
fn frontend_configs_are_per_direction() {
    let mut f = front(1);
    let mut rx = f.config(Direction::Rx);
    assert_eq!(rx.vga_db, 24);
    rx.lna_db = 16;
    f.set_config(Direction::Rx, rx);
    assert_eq!(f.config(Direction::Rx).lna_db, 16);
    // The transmit side keeps its own configuration.
    assert_eq!(f.config(Direction::Tx).txvga_db, 40);
}

#[test]
fn frontend_probe_args_builds_one_entry_per_radio() {
    let entries = seify::impls::hackrfone::probe_args(&vec![(1, 2), (250, 9)]);
    assert_eq!(entries.len(), 2);
    assert_eq!(entries[0].get("driver").unwrap(), "hackrfone");
    assert_eq!(entries[0].get("bus_number").unwrap(), "1");
    assert_eq!(entries[0].get("address").unwrap(), "2");
    assert_eq!(entries[1].get("bus_number").unwrap(), "250");
    assert_eq!(entries[1].get("address").unwrap(), "9");
    assert!(seify::impls::hackrfone::probe_args(&Vec::new()).is_empty());
}

#[test]
fn frontend_open_rejects_half_or_malformed_addresses() {
    // Exactly one of the two position keys.
    let args: seify::Args = "bus_number=1".parse().unwrap();
    assert!(matches!(HackRfOne::open(&args), Err(Error::ValueError)));
    let args: seify::Args = "address=2".parse().unwrap();
    assert!(matches!(HackRfOne::open(&args), Err(Error::ValueError)));
    // Malformed or out-of-byte-range numbers.
    let args: seify::Args = "bus_number=abc,address=2".parse().unwrap();
    assert!(matches!(HackRfOne::open(&args), Err(Error::ValueError)));
    let args: seify::Args = "bus_number=1,address=999".parse().unwrap();
    assert!(matches!(HackRfOne::open(&args), Err(Error::ValueError)));
}

#[test]
fn frontend_open_refuses_fd_selector() {
    let args: seify::Args = "fd=7".parse().unwrap();
    assert!(matches!(HackRfOne::open(&args), Err(Error::NotSupported)));
    // Even alongside an otherwise valid position.
    let args: seify::Args = "fd=7,bus_number=1,address=2".parse().unwrap();
    assert!(matches!(HackRfOne::open(&args), Err(Error::NotSupported)));
}
